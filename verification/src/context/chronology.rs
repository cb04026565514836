//! What holds of the history of every log.

use vstd::prelude::*;
use crate::ai::MessageView;
use crate::context::serde::MakaiContextChannelSerde;
use crate::context::{LogView, MakaiContextChannel, bounded_history, chronological};
use crate::time::{
    TimeKey, ascending, key_lt, lemma_ordered_keys, lemma_ordered_keys_unique, ordered_keys,
};

verus! {

/// Whether each message of `log` is filed under its own instant, as it is in
/// every log that was filled by appending.
pub open spec fn keyed_by_timestamp(log: LogView) -> bool {
    forall|k: TimeKey| #[trigger] log.contains_key(k) ==> log[k].timestamp.key() == k
}

/// The log that appending the messages of `msgs` to `log`, one after the
/// other, leaves.
pub open spec fn appended(log: LogView, msgs: Seq<MessageView>) -> LogView
    decreases msgs.len(),
{
    if msgs.len() == 0 {
        log
    } else {
        appended(log, msgs.drop_last()).insert(msgs.last().timestamp.key(), msgs.last())
    }
}

/// The history of a finite log lists each of its messages once, in the order
/// of the keys they are filed by.
pub proof fn lemma_chronological(log: LogView)
    requires
        log.dom().finite(),
    ensures
        chronological(log).len() == log.dom().len(),
        ascending(ordered_keys(log.dom())),
        forall|i: int|
            0 <= i < chronological(log).len() ==> log.contains_key(
                #[trigger] ordered_keys(log.dom())[i],
            ) && chronological(log)[i] == log[ordered_keys(log.dom())[i]],
        forall|k: TimeKey| #[trigger]
            log.contains_key(k) ==> exists|i: int|
                0 <= i < chronological(log).len() && #[trigger] chronological(log)[i] == log[k],
{
    let keys = ordered_keys(log.dom());
    lemma_ordered_keys(log.dom());
    assert forall|i: int| 0 <= i < keys.len() implies log.contains_key(#[trigger] keys[i]) by {
        assert(keys.to_set().contains(keys[i]));
    }
    assert forall|k: TimeKey| #[trigger] log.contains_key(k) implies exists|i: int|
        0 <= i < chronological(log).len() && #[trigger] chronological(log)[i] == log[k] by {
        assert(keys.to_set().contains(k));
        let i = choose|i: int| 0 <= i < keys.len() && keys[i] == k;
        assert(chronological(log)[i] == log[k]);
    }
}

/// In a finite log whose messages are filed under their own instants, the
/// history runs strictly forward in time.
pub proof fn lemma_history_runs_forward(log: LogView)
    requires
        log.dom().finite(),
        keyed_by_timestamp(log),
    ensures
        forall|i: int, j: int|
            0 <= i < j < chronological(log).len() ==> (#[trigger] chronological(
                log,
            )[i]).timestamp.is_before((#[trigger] chronological(log)[j]).timestamp),
{
    let keys = ordered_keys(log.dom());
    lemma_chronological(log);
    assert forall|i: int, j: int| 0 <= i < j < chronological(log).len() implies (
    #[trigger] chronological(log)[i]).timestamp.is_before(
        (#[trigger] chronological(log)[j]).timestamp,
    ) by {
        assert(log.contains_key(keys[i]) && log.contains_key(keys[j]));
        assert(key_lt(keys[i], keys[j]));
    }
}

/// A message that is later than every message of a finite log goes to the
/// end of the history, and the history before it stays as it was.
pub proof fn lemma_append_latest(log: LogView, message: MessageView)
    requires
        log.dom().finite(),
        forall|k: TimeKey| #[trigger] log.contains_key(k) ==> key_lt(k, message.timestamp.key()),
    ensures
        chronological(log.insert(message.timestamp.key(), message)) == chronological(log).push(
            message,
        ),
{
    let key = message.timestamp.key();
    let keys = ordered_keys(log.dom());
    let after = log.insert(key, message);
    lemma_ordered_keys(log.dom());
    let longer = keys.push(key);
    assert forall|i: int, j: int| 0 <= i < j < longer.len() implies key_lt(
        longer[i],
        longer[j],
    ) by {
        assert(keys.to_set().contains(keys[i]));
        if j < keys.len() {
            assert(key_lt(keys[i], keys[j]));
        }
    }
    assert forall|k: TimeKey| longer.to_set().contains(k) <==> after.dom().contains(k) by {
        if after.dom().contains(k) {
            if k == key {
                assert(longer[keys.len() as int] == k);
            } else {
                assert(keys.to_set().contains(k));
                let i = choose|i: int| 0 <= i < keys.len() && keys[i] == k;
                assert(longer[i] == k);
            }
        }
        if longer.to_set().contains(k) {
            let i = choose|i: int| 0 <= i < longer.len() && longer[i] == k;
            if i < keys.len() {
                assert(keys.to_set().contains(keys[i]));
            }
        }
    }
    assert(longer.to_set() =~= after.dom());
    lemma_ordered_keys_unique(longer, after.dom());
    assert forall|i: int| 0 <= i < keys.len() implies after[#[trigger] keys[i]] == log[keys[i]] by {
        assert(keys.to_set().contains(keys[i]));
        assert(key_lt(keys[i], key));
    }
    assert(chronological(after) =~= chronological(log).push(message));
}

/// What appending messages of pairwise different instants to the empty log
/// leaves: one entry for each of them, under its own instant.
proof fn lemma_appended(msgs: Seq<MessageView>)
    requires
        forall|i: int, j: int|
            0 <= i < j < msgs.len() ==> (#[trigger] msgs[i]).timestamp != (
            #[trigger] msgs[j]).timestamp,
    ensures
        appended(LogView::empty(), msgs).dom().finite(),
        appended(LogView::empty(), msgs).dom().len() == msgs.len(),
        keyed_by_timestamp(appended(LogView::empty(), msgs)),
        forall|i: int|
            0 <= i < msgs.len() ==> appended(LogView::empty(), msgs).contains_key(
                (#[trigger] msgs[i]).timestamp.key(),
            ) && appended(LogView::empty(), msgs)[msgs[i].timestamp.key()] == msgs[i],
        forall|k: TimeKey| #[trigger]
            appended(LogView::empty(), msgs).contains_key(k) ==> exists|i: int|
                0 <= i < msgs.len() && (#[trigger] msgs[i]).timestamp.key() == k,
    decreases msgs.len(),
{
    if msgs.len() > 0 {
        let front = msgs.drop_last();
        let last = msgs.last();
        let before = appended(LogView::empty(), front);
        let after = appended(LogView::empty(), msgs);
        assert forall|i: int, j: int| 0 <= i < j < front.len() implies (
        #[trigger] front[i]).timestamp != (#[trigger] front[j]).timestamp by {
            assert(front[i] == msgs[i] && front[j] == msgs[j]);
        }
        lemma_appended(front);
        assert(!before.contains_key(last.timestamp.key())) by {
            if before.contains_key(last.timestamp.key()) {
                let i = choose|i: int|
                    0 <= i < front.len() && (#[trigger] front[i]).timestamp.key()
                        == last.timestamp.key();
                assert(msgs[i].timestamp != msgs[msgs.len() - 1].timestamp);
            }
        }
        assert(after.dom() =~= before.dom().insert(last.timestamp.key()));
        assert forall|i: int| 0 <= i < msgs.len() implies after.contains_key(
            (#[trigger] msgs[i]).timestamp.key(),
        ) && after[msgs[i].timestamp.key()] == msgs[i] by {
            if i < front.len() {
                assert(front[i] == msgs[i]);
                assert(before.contains_key(front[i].timestamp.key()));
            }
        }
        assert forall|k: TimeKey| #[trigger] after.contains_key(k) implies exists|i: int|
            0 <= i < msgs.len() && (#[trigger] msgs[i]).timestamp.key() == k by {
            if k == last.timestamp.key() {
                assert(msgs[msgs.len() - 1].timestamp.key() == k);
            } else {
                assert(before.contains_key(k));
                let i = choose|i: int|
                    0 <= i < front.len() && (#[trigger] front[i]).timestamp.key() == k;
                assert(msgs[i].timestamp.key() == k);
            }
        }
    }
}

/// Messages of pairwise different instants, appended to an empty log in any
/// order, come out of the history each once and in ascending order of their
/// instants.
pub proof fn lemma_appends_come_out_ascending(msgs: Seq<MessageView>)
    requires
        forall|i: int, j: int|
            0 <= i < j < msgs.len() ==> (#[trigger] msgs[i]).timestamp != (
            #[trigger] msgs[j]).timestamp,
    ensures
        chronological(appended(LogView::empty(), msgs)).len() == msgs.len(),
        forall|i: int|
            0 <= i < msgs.len() ==> chronological(appended(LogView::empty(), msgs)).contains(
                #[trigger] msgs[i],
            ),
        forall|i: int, j: int|
            0 <= i < j < msgs.len() ==> (#[trigger] chronological(
                appended(LogView::empty(), msgs),
            )[i]).timestamp.is_before(
                (#[trigger] chronological(appended(LogView::empty(), msgs))[j]).timestamp,
            ),
{
    let log = appended(LogView::empty(), msgs);
    lemma_appended(msgs);
    lemma_chronological(log);
    lemma_history_runs_forward(log);
    assert forall|i: int| 0 <= i < msgs.len() implies chronological(log).contains(
        #[trigger] msgs[i],
    ) by {
        assert(log.contains_key(msgs[i].timestamp.key()));
    }
}

/// A bounded history is never longer than its bound, and holds the last
/// messages of the full history, in their order.
pub proof fn lemma_bounded_history(log: LogView, n: usize)
    ensures
        bounded_history(log, Some(n)).len() <= n,
        bounded_history(log, Some(n)).len() <= chronological(log).len(),
        chronological(log).len() >= n ==> bounded_history(log, Some(n)).len() == n,
        forall|i: int|
            0 <= i < bounded_history(log, Some(n)).len() ==> #[trigger] bounded_history(
                log,
                Some(n),
            )[i] == chronological(log)[chronological(log).len() - bounded_history(
                log,
                Some(n),
            ).len() + i],
        bounded_history(log, None) == chronological(log),
{
}

/// Appending keeps each message of a log under its own instant.
pub proof fn lemma_append_keeps_keys(log: LogView, message: MessageView)
    requires
        keyed_by_timestamp(log),
    ensures
        keyed_by_timestamp(log.insert(message.timestamp.key(), message)),
{
}

/// A log that went into an image and came back out of it hands out the
/// history that it handed out before, message by message, under every limit.
pub proof fn lemma_snapshot_round_trip(
    log: MakaiContextChannel,
    image: MakaiContextChannelSerde,
    restored: MakaiContextChannel,
    limit: Option<usize>,
)
    requires
        image@ == log@,
        restored@ == image@,
    ensures
        bounded_history(restored@, limit) == bounded_history(log@, limit),
        forall|i: int|
            0 <= i < chronological(log@).len() ==> {
                &&& (#[trigger] chronological(restored@)[i]).message_id == chronological(
                    log@,
                )[i].message_id
                &&& chronological(restored@)[i].timestamp == chronological(log@)[i].timestamp
                &&& chronological(restored@)[i].sender == chronological(log@)[i].sender
                &&& chronological(restored@)[i].content == chronological(log@)[i].content
            },
{
}

} // verus!
