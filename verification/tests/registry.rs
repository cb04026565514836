use makai::ai::{MakaiMessage, MessageSender};
use makai::context::serde::{MakaiContextChannelSerde, MakaiContextSerde};
use makai::context::{MakaiContext, MakaiContextChannel};
use makai::model::User;
use makai::time::Timestamp;
use std::collections::{BTreeMap, HashMap};

fn said(secs: i64, name: &str, content: &str) -> MakaiMessage {
    MakaiMessage {
        message_id: None,
        timestamp: Timestamp { secs, nanos: 0 },
        sender: MessageSender::User(name.to_string()),
        content: content.to_string(),
    }
}

fn bot() -> User {
    User { id: 99, name: "makai".to_string(), global_name: Some("MakAI".to_string()) }
}

fn texts(log: &MakaiContextChannel) -> Vec<String> {
    log.history(None).iter().map(|m| m.content.clone()).collect()
}

#[test]
fn new_registry_has_no_channel_and_no_identity() {
    let ctx = MakaiContext::new();
    assert!(ctx.get(1).is_none());
    assert_eq!(ctx.user(), None);
    let image = ctx.snapshot();
    assert!(image.channels.is_empty());
    assert_eq!(image.bot_user, None);
    assert!(MakaiContext::default().get(1).is_none());
}

#[test]
fn a_channel_is_made_once_and_handed_out_again() {
    let mut ctx = MakaiContext::new();
    assert_eq!(ctx.channel(7).len(), 0);
    ctx.channel(7).add_message(said(1, "Ann", "through the first handle"));
    assert_eq!(texts(ctx.channel(7)), vec!["through the first handle"]);
    for _ in 0..5 {
        let _ = ctx.channel(7);
    }
    assert_eq!(ctx.snapshot().channels.len(), 1);
    assert_eq!(texts(ctx.get(7).unwrap()), vec!["through the first handle"]);
}

#[test]
fn get_does_not_make_a_channel() {
    let mut ctx = MakaiContext::new();
    assert!(ctx.get(3).is_none());
    assert!(ctx.snapshot().channels.is_empty());
    let _ = ctx.channel(3);
    assert!(ctx.get(3).is_some());
    assert!(ctx.get(4).is_none());
}

#[test]
fn clear_empties_one_channel_only() {
    let mut ctx = MakaiContext::new();
    ctx.channel(1).add_message(said(1, "Ann", "one"));
    ctx.channel(2).add_message(said(2, "Bob", "two"));
    ctx.channel(3).add_message(said(3, "Cid", "three"));
    ctx.set_user(bot());
    ctx.channel(2).clear();
    assert_eq!(texts(ctx.get(1).unwrap()), vec!["one"]);
    assert!(texts(ctx.get(2).unwrap()).is_empty());
    assert_eq!(texts(ctx.get(3).unwrap()), vec!["three"]);
    assert_eq!(ctx.user(), Some(bot()));
}

#[test]
fn identity_is_unknown_until_set_and_the_last_one_set_stays() {
    let mut ctx = MakaiContext::new();
    assert_eq!(ctx.user(), None);
    ctx.set_user(User { id: 1, name: "old".to_string(), global_name: None });
    assert_eq!(ctx.user().map(|u| u.id), Some(1));
    ctx.channel(5).add_message(said(1, "Ann", "kept"));
    ctx.set_user(bot());
    assert_eq!(ctx.user(), Some(bot()));
    assert_eq!(texts(ctx.get(5).unwrap()), vec!["kept"]);
}

#[test]
fn registry_snapshot_round_trip_is_lossless() {
    let mut ctx = MakaiContext::new();
    ctx.channel(1).add_message(said(2, "Ann", "b"));
    ctx.channel(1).add_message(said(1, "Ann", "a"));
    ctx.channel(u64::MAX).add_message(said(3, "Bob", "c"));
    let _ = ctx.channel(8);
    ctx.set_user(bot());
    let image = ctx.snapshot();
    assert_eq!(image.channels.len(), 3);
    assert_eq!(image.bot_user, Some(bot()));
    let restored = MakaiContext::restore(image.clone());
    assert_eq!(restored.snapshot(), image);
    assert_eq!(texts(restored.get(1).unwrap()), vec!["a", "b"]);
    assert_eq!(texts(restored.get(u64::MAX).unwrap()), vec!["c"]);
    assert_eq!(restored.get(8).map(|log| log.len()), Some(0));
    assert!(restored.get(2).is_none());
    assert_eq!(restored.user(), Some(bot()));
}

#[test]
fn restore_takes_the_image_as_it_is() {
    let mut messages = BTreeMap::new();
    messages.insert((5i64, 0u32), said(5, "Ann", "five"));
    messages.insert((4i64, 7u32), said(4, "Ann", "four"));
    let mut channels = HashMap::new();
    channels.insert(12u64, MakaiContextChannelSerde { messages });
    channels.insert(13u64, MakaiContextChannelSerde { messages: BTreeMap::new() });
    let restored = MakaiContext::restore(MakaiContextSerde { channels, bot_user: None });
    assert_eq!(texts(restored.get(12).unwrap()), vec!["four", "five"]);
    assert_eq!(restored.get(13).map(|log| log.len()), Some(0));
    assert_eq!(restored.user(), None);
    assert_eq!(restored.snapshot().channels.len(), 2);
}

#[test]
fn a_clone_of_the_registry_is_independent() {
    let mut ctx = MakaiContext::new();
    ctx.channel(1).add_message(said(1, "Ann", "a"));
    ctx.set_user(bot());
    let copy = ctx.clone();
    ctx.channel(1).clear();
    ctx.channel(2).add_message(said(2, "Bob", "b"));
    assert_eq!(texts(copy.get(1).unwrap()), vec!["a"]);
    assert!(copy.get(2).is_none());
    assert_eq!(copy.user(), Some(bot()));
}
