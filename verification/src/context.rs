//! The conversation log of one channel and the registry of all logs.

use vstd::prelude::*;
use vstd::std_specs::iter::IteratorSpec;
use std::collections::BTreeMap;
use std::collections::HashMap;
use crate::ai::{ChatMessage, MakaiMessage, MessageView, chat_turn};
use crate::context::serde::{MakaiContextChannelSerde, MakaiContextSerde};
use crate::model::{User, UserView};
use crate::time::{
    TimeKey, lemma_increasing_is_ascending, lemma_ordered_keys_unique, ordered_keys,
};

pub mod chronology;
pub mod serde;

verus! {

broadcast use {
    vstd::std_specs::btree::group_btree_axioms,
    vstd::std_specs::hash::group_hash_axioms,
    vstd::laws_cmp::group_laws_cmp,
};

/// A log as contracts see it: each message under the instant it is filed by.
pub type LogView = Map<TimeKey, MessageView>;

/// The messages of a log from the oldest to the newest.
pub open spec fn chronological(log: LogView) -> Seq<MessageView> {
    ordered_keys(log.dom()).map_values(|k: TimeKey| log[k])
}

/// The last `n` elements of `s`, and all of `s` where it has no more than `n`.
pub open spec fn last_n<A>(s: Seq<A>, n: nat) -> Seq<A> {
    if n >= s.len() {
        s
    } else {
        s.subrange(s.len() - n, s.len() as int)
    }
}

/// What `history` hands out of a log under a limit.
pub open spec fn bounded_history(log: LogView, limit: Option<usize>) -> Seq<MessageView> {
    match limit {
        Some(n) => last_n(chronological(log), n as nat),
        None => chronological(log),
    }
}

/// The messages of one channel, filed by the instant they were written. Two
/// messages of one instant cannot both stay: the later insertion replaces the
/// earlier one.
#[derive(Debug)]
pub struct MakaiContextChannel {
    messages: BTreeMap<TimeKey, MakaiMessage>,
}

impl View for MakaiContextChannel {
    type V = LogView;

    closed spec fn view(&self) -> LogView {
        self.messages@.map_values(|m: MakaiMessage| m@)
    }
}

impl MakaiContextChannel {
    /// An empty log.
    pub fn new() -> (res: Self)
        ensures
            res@ == LogView::empty(),
    {
        let res = MakaiContextChannel { messages: BTreeMap::new() };
        assert(res@ =~= LogView::empty());
        res
    }

    /// A log never holds more than finitely many messages.
    pub proof fn lemma_finite(&self)
        ensures
            self@.dom().finite(),
    {
        assert(self@.dom() =~= self.messages@.dom());
    }

    /// Files `message` under its instant, in place of whatever was there.
    pub fn add_message(&mut self, message: MakaiMessage)
        ensures
            final(self)@ == old(self)@.insert(message.timestamp.key(), message@),
    {
        let key = message.timestamp.key();
        self.messages.insert(key, message);
        assert(self@ =~= old(self)@.insert(key, message@));
    }

    /// Forgets every message of the log.
    pub fn clear(&mut self)
        ensures
            final(self)@ == LogView::empty(),
    {
        self.messages.clear();
        assert(self@ =~= LogView::empty());
    }

    /// How many messages the log holds.
    pub fn len(&self) -> (n: usize)
        ensures
            n == self@.dom().len(),
    {
        assert(self@.dom() =~= self.messages@.dom());
        self.messages.len()
    }

    /// The messages from the oldest to the newest; under `Some(n)`, the most
    /// recent `n` of them only, still oldest first.
    pub fn history(&self, limit: Option<usize>) -> (res: Vec<MakaiMessage>)
        ensures
            res.deep_view() == bounded_history(self@, limit),
            limit matches Some(n) ==> res.len() <= n,
    {
        let total = self.messages.len();
        let skip: usize = match limit {
            Some(n) => if n >= total { 0 } else { total - n },
            None => 0,
        };
        let values = self.messages.values();
        let ghost all = values.remaining();
        let ghost keys = choose|key_seq: Seq<TimeKey>|
            {
                &&& vstd::std_specs::btree::increasing_seq(key_seq)
                &&& key_seq.to_set() == self.messages@.dom()
                &&& key_seq.no_duplicates()
                &&& all == key_seq.map(|i: int, k: TimeKey| &self.messages@[k])
            };
        proof {
            assert(self@.dom() =~= self.messages@.dom());
            lemma_increasing_is_ascending(keys);
            lemma_ordered_keys_unique(keys, self@.dom());
            keys.unique_seq_to_set();
            assert(chronological(self@).len() == total);
        }
        let mut out: Vec<MakaiMessage> = Vec::new();
        let mut seen: usize = 0;
        for m in it: values
            invariant
                it.seq() == all,
                all.len() == total,
                skip <= total,
                seen == it.index(),
                out.len() == if seen <= skip { 0 } else { seen - skip },
                forall|j: int| 0 <= j < out.len() ==> out[j] == *all[skip + j],
        {
            if seen >= skip {
                out.push(m.clone());
            }
            seen = seen + 1;
        }
        proof {
            let full = chronological(self@);
            assert forall|i: int| 0 <= i < total implies (*all[i])@ == full[i] by {
                assert(*all[i] == self.messages@[keys[i]]);
            }
            assert(out.deep_view() =~= full.subrange(skip as int, total as int)) by {
                assert forall|j: int| 0 <= j < out.len() implies out.deep_view()[j] == full[skip
                    + j] by {
                    assert(out[j] == *all[skip + j]);
                }
            }
            assert(full.subrange(0, total as int) =~= full);
        }
        out
    }

    /// The image of this log, for a snapshot: every message, unchanged.
    pub fn to_snapshot(&self) -> (res: MakaiContextChannelSerde)
        ensures
            res@ == self@,
    {
        MakaiContextChannelSerde { messages: self.messages.clone() }
    }

    /// The log that an image stands for: every message, unchanged.
    pub fn from_snapshot(data: MakaiContextChannelSerde) -> (res: Self)
        ensures
            res@ == data@,
    {
        MakaiContextChannel { messages: data.messages }
    }

    /// The chat turns of the most recent `limit` messages, oldest first.
    pub fn chat_messages(&self, limit: usize) -> (res: Vec<ChatMessage>)
        ensures
            res.deep_view() == last_n(chronological(self@), limit as nat).map_values(
                |m: MessageView| chat_turn(m),
            ),
    {
        let recent = self.history(Some(limit));
        let mut out: Vec<ChatMessage> = Vec::new();
        let mut i: usize = 0;
        while i < recent.len()
            invariant
                i <= recent.len(),
                out.len() == i,
                forall|j: int| 0 <= j < i ==> out[j]@ == chat_turn(recent[j]@),
            decreases recent.len() - i,
        {
            out.push(recent[i].to_chat_message());
            i = i + 1;
        }
        proof {
            let turns = recent.deep_view().map_values(|m: MessageView| chat_turn(m));
            assert(out.deep_view() =~= turns) by {
                assert forall|j: int| 0 <= j < out.len() implies out.deep_view()[j] == turns[j] by {
                    assert(recent.deep_view()[j] == recent[j]@);
                }
            }
        }
        out
    }
}

impl Default for MakaiContextChannel {
    /// An empty log.
    fn default() -> (res: Self)
        ensures
            res@ == LogView::empty(),
    {
        Self::new()
    }
}

impl Clone for MakaiContextChannel {
    /// A log of its own with the same messages.
    fn clone(&self) -> (res: Self)
        ensures
            res@ == self@,
    {
        MakaiContextChannel { messages: self.messages.clone() }
    }
}

/// The registry as contracts see it.
pub struct ContextView {
    /// The log of each channel that was ever asked for.
    pub channels: Map<u64, LogView>,
    /// The bot's own identity, once the platform has told it.
    pub bot_user: Option<UserView>,
}

impl ContextView {
    /// The log of `channel`, which is empty as long as nobody asked for it.
    pub open spec fn log(self, channel: u64) -> LogView {
        if self.channels.contains_key(channel) {
            self.channels[channel]
        } else {
            LogView::empty()
        }
    }
}

spec fn log_views(channels: Map<u64, MakaiContextChannel>) -> Map<u64, LogView> {
    channels.map_values(|c: MakaiContextChannel| c@)
}

proof fn lemma_log_views_insert(channels: Map<u64, MakaiContextChannel>, channel: u64)
    ensures
        forall|log: MakaiContextChannel| #[trigger]
            log_views(channels.insert(channel, log)) == log_views(channels).insert(channel, log@),
{
    assert forall|log: MakaiContextChannel| #[trigger]
        log_views(channels.insert(channel, log)) == log_views(channels).insert(
            channel,
            log@,
        ) by {
        assert(log_views(channels.insert(channel, log)) =~= log_views(channels).insert(
            channel,
            log@,
        ));
    }
}

/// The logs of all channels, by channel identifier, and the bot's identity.
#[derive(Debug)]
pub struct MakaiContext {
    channels: HashMap<u64, MakaiContextChannel>,
    bot_user: Option<User>,
}

impl View for MakaiContext {
    type V = ContextView;

    closed spec fn view(&self) -> ContextView {
        ContextView {
            channels: log_views(self.channels@),
            bot_user: match self.bot_user {
                Some(u) => Some(u@),
                None => None,
            },
        }
    }
}

impl MakaiContext {
    /// A registry without channels, of a bot that does not know itself yet.
    pub fn new() -> (res: Self)
        ensures
            res@ == (ContextView { channels: Map::empty(), bot_user: None }),
    {
        let res = MakaiContext { channels: HashMap::new(), bot_user: None };
        assert(res@.channels =~= Map::<u64, LogView>::empty());
        res
    }

    /// A registry has finitely many channels, and each log in it finitely
    /// many messages.
    pub proof fn lemma_finite(&self)
        ensures
            self@.channels.dom().finite(),
            forall|channel: u64| (#[trigger] self@.log(channel)).dom().finite(),
    {
        assert(self@.channels.dom() =~= self.channels@.dom());
        assert forall|channel: u64| (#[trigger] self@.log(channel)).dom().finite() by {
            if self@.channels.contains_key(channel) {
                self.channels@[channel].lemma_finite();
            }
        }
    }

    /// The log of `channel`, made empty first if the registry had none. What
    /// the caller does to the log is what the registry holds afterwards; no
    /// other channel and not the bot's identity is touched.
    pub fn channel(&mut self, channel: u64) -> (log: &mut MakaiContextChannel)
        ensures
            log@ == old(self)@.log(channel),
            final(self)@ == (ContextView {
                channels: old(self)@.channels.insert(channel, final(log)@),
                bot_user: old(self)@.bot_user,
            }),
    {
        proof {
            lemma_log_views_insert(self.channels@, channel);
        }
        self.channels.entry(channel).or_insert(MakaiContextChannel::new())
    }

    /// The log of `channel` as it stands, if the registry has one.
    pub fn get(&self, channel: u64) -> (res: Option<&MakaiContextChannel>)
        ensures
            match res {
                Some(log) => self@.channels.contains_key(channel) && log@ == self@.channels[channel],
                None => !self@.channels.contains_key(channel),
            },
    {
        self.channels.get(&channel)
    }

    /// The image of the whole registry: every channel's log and the bot's
    /// identity.
    pub fn snapshot(&self) -> (res: MakaiContextSerde)
        ensures
            res@ == self@,
    {
        let mut channels: HashMap<u64, MakaiContextChannelSerde> = HashMap::new();
        let entries = self.channels.iter();
        let ghost all = entries.remaining();
        for entry in it: entries
            invariant
                it.seq() == all,
                all == self.channels.iter().remaining(),
                forall|id: u64| #[trigger]
                    channels@.contains_key(id) <==> exists|j: int|
                        0 <= j < it.index() && *(#[trigger] all[j]).0 == id,
                forall|id: u64| #[trigger]
                    channels@.contains_key(id) ==> self.channels@.contains_key(id)
                        && channels@[id]@ == self.channels@[id]@,
        {
            let (id, log) = entry;
            assert(all[it.index() as int] == entry);
            channels.insert(*id, log.to_snapshot());
        }
        let res = MakaiContextSerde { channels, bot_user: self.user() };
        proof {
            assert forall|id: u64| self.channels@.contains_key(id) implies res.channels@.contains_key(
                id,
            ) by {
                let pair = (&id, &self.channels@[id]);
                assert(all.contains(pair));
                let j = choose|j: int| 0 <= j < all.len() && all[j] == pair;
                assert(*all[j].0 == id);
            }
            assert(res@.channels =~= self@.channels);
        }
        res
    }

    /// The registry that an image stands for. Nothing of an earlier registry
    /// is merged into it.
    pub fn restore(data: MakaiContextSerde) -> (res: Self)
        ensures
            res@ == data@,
    {
        let MakaiContextSerde { channels: mut images, bot_user } = data;
        let mut ids: Vec<u64> = Vec::new();
        let keys = images.keys();
        let ghost all = keys.remaining();
        for id in it: keys
            invariant
                it.seq() == all,
                ids.len() == it.index(),
                forall|j: int| 0 <= j < ids.len() ==> ids[j] == *all[j],
        {
            ids.push(*id);
        }
        proof {
            assert(ids@ =~= all.unref());
        }
        let mut channels: HashMap<u64, MakaiContextChannel> = HashMap::new();
        let mut i: usize = 0;
        while i < ids.len()
            invariant
                i <= ids.len(),
                ids@.to_set() == data.channels@.dom(),
                forall|j: int| 0 <= j < i ==> !images@.contains_key(#[trigger] ids[j]),
                forall|id: u64| #[trigger]
                    images@.contains_key(id) ==> data.channels@.contains_key(id) && images@[id]
                        == data.channels@[id],
                forall|id: u64| #[trigger]
                    channels@.contains_key(id) ==> data.channels@.contains_key(id)
                        && channels@[id]@ == data.channels@[id]@,
                forall|id: u64| #[trigger]
                    data.channels@.contains_key(id) ==> images@.contains_key(id)
                        || channels@.contains_key(id),
            decreases ids.len() - i,
        {
            let id = ids[i];
            match images.remove(&id) {
                Some(image) => {
                    channels.insert(id, MakaiContextChannel::from_snapshot(image));
                },
                None => {},
            }
            i = i + 1;
        }
        let res = MakaiContext { channels, bot_user };
        proof {
            assert forall|id: u64| data.channels@.contains_key(id) implies channels@.contains_key(
                id,
            ) by {
                assert(ids@.to_set().contains(id));
                let j = choose|j: int| 0 <= j < ids.len() && ids[j] == id;
                assert(!images@.contains_key(ids[j]));
            }
            assert(res@.channels =~= data@.channels);
        }
        res
    }

    /// The bot's own identity, if it is known yet.
    pub fn user(&self) -> (res: Option<User>)
        ensures
            res.deep_view() == self@.bot_user,
    {
        match &self.bot_user {
            Some(u) => Some(u.clone()),
            None => None,
        }
    }

    /// Records the bot's identity, in place of an earlier one.
    pub fn set_user(&mut self, user: User)
        ensures
            final(self)@ == (ContextView { bot_user: Some(user@), ..old(self)@ }),
    {
        self.bot_user = Some(user);
    }
}

impl Default for MakaiContext {
    /// A registry without channels, of a bot that does not know itself yet.
    fn default() -> (res: Self)
        ensures
            res@ == (ContextView { channels: Map::empty(), bot_user: None }),
    {
        Self::new()
    }
}

impl Clone for MakaiContext {
    /// A registry of its own with the same logs and the same identity.
    fn clone(&self) -> (res: Self)
        ensures
            res@ == self@,
    {
        Self::restore(self.snapshot())
    }
}

/// Asking for a channel a second time makes no second log: the registry
/// stays as the first asking left it, and hands out the log that it handed
/// out then, with what was filed in it since.
pub proof fn lemma_channel_is_made_once(ctx: ContextView, channel: u64, log: LogView)
    ensures
        ({
            let asked = ContextView { channels: ctx.channels.insert(channel, log), ..ctx };
            let again = ContextView {
                channels: asked.channels.insert(channel, asked.log(channel)),
                ..asked
            };
            asked.log(channel) == log && again == asked
        }),
{
    let asked = ContextView { channels: ctx.channels.insert(channel, log), ..ctx };
    assert(asked.channels.insert(channel, asked.log(channel)) =~= asked.channels);
}

/// Emptying the log of one channel leaves every other channel, and what the
/// bot knows of itself, as it was.
pub proof fn lemma_clear_touches_one_channel(ctx: ContextView, channel: u64, other: u64)
    requires
        other != channel,
    ensures
        ({
            let cleared = ContextView {
                channels: ctx.channels.insert(channel, LogView::empty()),
                ..ctx
            };
            &&& cleared.log(channel) == LogView::empty()
            &&& cleared.log(other) == ctx.log(other)
            &&& cleared.channels.contains_key(other) == ctx.channels.contains_key(other)
            &&& cleared.bot_user == ctx.bot_user
        }),
{
}

} // verus!
