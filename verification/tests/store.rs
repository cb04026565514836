use makai::ai::{ChatRole, MakaiMessage, MessageSender};
use makai::context::MakaiContextChannel;
use makai::time::Timestamp;

fn at(secs: i64, nanos: u32, sender: MessageSender, content: &str) -> MakaiMessage {
    MakaiMessage {
        message_id: None,
        timestamp: Timestamp { secs, nanos },
        sender,
        content: content.to_string(),
    }
}

fn user(name: &str) -> MessageSender {
    MessageSender::User(name.to_string())
}

fn texts(messages: &[MakaiMessage]) -> Vec<String> {
    messages.iter().map(|m| m.content.clone()).collect()
}

#[test]
fn new_log_is_empty() {
    let log = MakaiContextChannel::new();
    assert_eq!(log.len(), 0);
    assert!(log.history(None).is_empty());
    assert!(log.history(Some(5)).is_empty());
    assert!(log.chat_messages(20).is_empty());
    assert_eq!(MakaiContextChannel::default().len(), 0);
}

#[test]
fn history_is_in_ascending_order_of_timestamps() {
    let mut log = MakaiContextChannel::new();
    log.add_message(at(30, 0, MessageSender::MakaiBot, "c"));
    log.add_message(at(10, 0, user("Ann"), "a"));
    log.add_message(at(40, 0, user("Bob"), "d"));
    log.add_message(at(20, 0, MessageSender::MakaiBot, "b"));
    let all = log.history(None);
    assert_eq!(texts(&all), vec!["a", "b", "c", "d"]);
    for pair in all.windows(2) {
        assert!(pair[0].timestamp.is_before(pair[1].timestamp));
    }
    assert_eq!(log.len(), 4);
}

#[test]
fn history_orders_by_nanoseconds_within_one_second() {
    let mut log = MakaiContextChannel::new();
    log.add_message(at(7, 999_999_999, user("Ann"), "late"));
    log.add_message(at(7, 1, user("Ann"), "early"));
    log.add_message(at(6, 1_500_000_000, user("Ann"), "leap second before"));
    log.add_message(at(-3, 0, user("Ann"), "before the epoch"));
    assert_eq!(
        texts(&log.history(None)),
        vec!["before the epoch", "leap second before", "early", "late"]
    );
}

#[test]
fn a_message_of_the_same_instant_replaces_the_earlier_one() {
    let mut log = MakaiContextChannel::new();
    log.add_message(at(10, 5, user("Ann"), "first"));
    log.add_message(at(11, 5, user("Ann"), "other"));
    log.add_message(at(10, 5, MessageSender::MakaiBot, "second"));
    let all = log.history(None);
    assert_eq!(all.len(), 2);
    assert_eq!(all[0], at(10, 5, MessageSender::MakaiBot, "second"));
    assert_eq!(all[1], at(11, 5, user("Ann"), "other"));
}

#[test]
fn bounded_history_is_the_tail_of_the_full_history() {
    let mut log = MakaiContextChannel::new();
    for i in [5i64, 1, 4, 2, 3] {
        log.add_message(at(i, 0, user("Ann"), &format!("m{i}")));
    }
    assert_eq!(texts(&log.history(Some(2))), vec!["m4", "m5"]);
    assert_eq!(texts(&log.history(Some(5))), vec!["m1", "m2", "m3", "m4", "m5"]);
    assert_eq!(texts(&log.history(Some(9))), vec!["m1", "m2", "m3", "m4", "m5"]);
    assert_eq!(texts(&log.history(Some(1))), vec!["m5"]);
    assert!(log.history(Some(0)).is_empty());
    assert_eq!(texts(&log.history(Some(usize::MAX))).len(), 5);
    let full = log.history(None);
    for n in 0..8usize {
        let bounded = log.history(Some(n));
        assert!(bounded.len() <= n);
        assert_eq!(bounded.len(), n.min(full.len()));
        assert_eq!(bounded.as_slice(), &full[full.len() - bounded.len()..]);
    }
}

#[test]
fn clear_forgets_every_message() {
    let mut log = MakaiContextChannel::new();
    log.add_message(at(1, 0, user("Ann"), "a"));
    log.add_message(at(2, 0, MessageSender::MakaiBot, "b"));
    log.clear();
    assert_eq!(log.len(), 0);
    assert!(log.history(None).is_empty());
    log.add_message(at(3, 0, user("Ann"), "c"));
    assert_eq!(texts(&log.history(None)), vec!["c"]);
}

#[test]
fn snapshot_round_trip_keeps_every_field() {
    let mut log = MakaiContextChannel::new();
    log.add_message(MakaiMessage {
        message_id: Some(77),
        timestamp: Timestamp { secs: 20, nanos: 3 },
        sender: user("Ann"),
        content: "with id".to_string(),
    });
    log.add_message(at(10, 0, MessageSender::MakaiBot, "no id"));
    log.add_message(at(30, 9, user(""), ""));
    let image = log.to_snapshot();
    assert_eq!(image.messages.len(), 3);
    assert_eq!(image.messages.get(&(20, 3)).map(|m| m.message_id), Some(Some(77)));
    let restored = MakaiContextChannel::from_snapshot(image);
    assert_eq!(restored.history(None), log.history(None));
    let all = restored.history(None);
    assert_eq!(all[0], at(10, 0, MessageSender::MakaiBot, "no id"));
    assert_eq!(all[1].message_id, Some(77));
    assert_eq!(all[1].sender, user("Ann"));
    assert_eq!(all[1].timestamp, Timestamp { secs: 20, nanos: 3 });
    assert_eq!(all[1].content, "with id");
    assert_eq!(all[2], at(30, 9, user(""), ""));
}

#[test]
fn snapshot_is_a_copy_and_leaves_the_log_alone() {
    let mut log = MakaiContextChannel::new();
    log.add_message(at(1, 0, user("Ann"), "a"));
    let image = log.to_snapshot();
    log.add_message(at(2, 0, user("Ann"), "b"));
    assert_eq!(image.messages.len(), 1);
    assert_eq!(log.len(), 2);
    let copy = log.clone();
    log.clear();
    assert_eq!(texts(&copy.history(None)), vec!["a", "b"]);
}

#[test]
fn chat_messages_are_the_turns_of_the_most_recent_messages() {
    let mut log = MakaiContextChannel::new();
    log.add_message(at(1, 0, user("Ann"), "hi"));
    log.add_message(at(2, 0, MessageSender::MakaiBot, "hello"));
    log.add_message(at(3, 0, user("Bob"), "bye"));
    let turns = log.chat_messages(2);
    assert_eq!(turns.len(), 2);
    assert_eq!(turns[0].role, ChatRole::Assistant);
    assert_eq!(turns[0].content, "You (MakAI) said: hello");
    assert_eq!(turns[1].role, ChatRole::User);
    assert_eq!(turns[1].content, "User `Bob` said: bye");
    assert_eq!(log.chat_messages(20).len(), 3);
    assert_eq!(log.chat_messages(20)[0].content, "User `Ann` said: hi");
}

#[test]
fn timestamp_order_is_by_seconds_then_nanoseconds() {
    let a = Timestamp { secs: 1, nanos: 500 };
    let b = Timestamp { secs: 1, nanos: 501 };
    let c = Timestamp { secs: 2, nanos: 0 };
    assert!(a.is_before(b));
    assert!(b.is_before(c));
    assert!(a.is_before(c));
    assert!(!b.is_before(a));
    assert!(!a.is_before(a));
    assert_eq!(a.key(), (1, 500));
    assert!(Timestamp { secs: -1, nanos: 999 }.is_before(Timestamp { secs: 0, nanos: 0 }));
}
