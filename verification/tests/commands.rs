use makai::ai::{MakaiMessage, MessageSender};
use makai::commands::chat::ChatCommand;
use makai::commands::remember::RememberCommand;
use makai::commands::reply::ReplyCommand;
use makai::commands::reset::ResetCommand;
use makai::commands::{
    all_contexts, closing_notice, failure_notice, is_named, notice, Acknowledgement, Command,
    CommandError, CommandKind, CommandOptionSpec, CommandOutcome, CommandStep,
    InteractionContext, MakaiCommand, MakaiCommandRegistry,
};
use makai::context::MakaiContext;
use makai::model::{CommandInteraction, CommandOption, Embed, OptionValue, PlatformMessage, User};
use makai::time::Timestamp;

fn ann() -> User {
    User { id: 7, name: "ann42".to_string(), global_name: Some("Ann".to_string()) }
}

fn bot() -> User {
    User { id: 99, name: "makai".to_string(), global_name: None }
}

fn invocation(name: &str, channel_id: u64) -> CommandInteraction {
    CommandInteraction {
        name: name.to_string(),
        channel_id,
        user: ann(),
        options: Vec::new(),
        messages: Vec::new(),
    }
}

fn text_option(name: &str, value: &str) -> CommandOption {
    CommandOption { name: name.to_string(), value: OptionValue::String(value.to_string()) }
}

fn posted(id: u64, author: User, content: &str) -> PlatformMessage {
    PlatformMessage {
        id,
        author,
        timestamp: Timestamp { secs: 500, nanos: 0 },
        content: content.to_string(),
        embeds: Vec::new(),
    }
}

fn said(secs: i64, content: &str) -> MakaiMessage {
    MakaiMessage {
        message_id: None,
        timestamp: Timestamp { secs, nanos: 0 },
        sender: MessageSender::User("Ann".to_string()),
        content: content.to_string(),
    }
}

fn contents(ctx: &MakaiContext, channel: u64) -> Vec<String> {
    ctx.get(channel).unwrap().history(None).iter().map(|m| m.content.clone()).collect()
}

#[test]
fn commands_go_by_their_names() {
    assert_eq!(ChatCommand.name(), "chat");
    assert_eq!(RememberCommand.name(), "Remember");
    assert_eq!(ReplyCommand.name(), "Reply");
    assert_eq!(ResetCommand.name(), "reset");
    assert_eq!(Command::Chat(ChatCommand).name(), "chat");
    assert_eq!(Command::Remember(RememberCommand).name(), "Remember");
    assert_eq!(Command::Reply(ReplyCommand).name(), "Reply");
    assert_eq!(Command::Reset(ResetCommand).name(), "reset");
}

#[test]
fn every_command_can_be_invoked_in_the_three_contexts() {
    let everywhere =
        vec![InteractionContext::BotDm, InteractionContext::Guild, InteractionContext::PrivateChannel];
    assert_eq!(all_contexts(), everywhere);
    assert_eq!(ChatCommand.register().contexts, everywhere);
    assert_eq!(RememberCommand.register().contexts, everywhere);
    assert_eq!(ReplyCommand.register().contexts, everywhere);
    assert_eq!(ResetCommand.register().contexts, everywhere);
}

#[test]
fn chat_registers_a_required_prompt() {
    let reg = ChatCommand.register();
    assert_eq!(reg.name, "chat");
    assert_eq!(reg.kind, CommandKind::ChatInput);
    assert_eq!(reg.description, Some("Chat to Makai LLM"));
    assert_eq!(
        reg.options,
        vec![CommandOptionSpec { name: "prompt", description: "The prompt to send", required: true }]
    );
    assert_eq!(Command::Chat(ChatCommand).register(), reg);
}

#[test]
fn message_commands_register_without_description_or_options() {
    for reg in [RememberCommand.register(), ReplyCommand.register()] {
        assert_eq!(reg.kind, CommandKind::Message);
        assert_eq!(reg.description, None);
        assert!(reg.options.is_empty());
    }
    assert_eq!(RememberCommand.register().name, "Remember");
    assert_eq!(ReplyCommand.register().name, "Reply");
}

#[test]
fn reset_registers_with_its_description() {
    let reg = ResetCommand.register();
    assert_eq!(reg.name, "reset");
    assert_eq!(reg.kind, CommandKind::ChatInput);
    assert_eq!(reg.description, Some("Reset message memory"));
    assert!(reg.options.is_empty());
}

#[test]
fn commands_that_ask_the_model_defer_and_the_others_leave_a_note() {
    assert_eq!(ChatCommand.acknowledge(), Acknowledgement::Defer);
    assert_eq!(ReplyCommand.acknowledge(), Acknowledgement::Defer);
    assert_eq!(RememberCommand.acknowledge(), Acknowledgement::Ephemeral("Added to memory"));
    assert_eq!(
        ResetCommand.acknowledge(),
        Acknowledgement::Ephemeral("Memory for this channel has been cleared")
    );
    assert!(Acknowledgement::Defer.must_succeed());
    assert!(!Acknowledgement::Ephemeral("x").must_succeed());
}

#[test]
fn the_default_registry_holds_the_four_commands() {
    let registry = MakaiCommandRegistry::default();
    let names: Vec<&str> = registry.register_command().iter().map(|r| r.name).collect();
    assert_eq!(names, vec!["Reply", "chat", "Remember", "reset"]);
    assert_eq!(registry.find(&"reset".to_string()), Some(&Command::Reset(ResetCommand)));
    assert_eq!(registry.find(&"chat".to_string()), Some(&Command::Chat(ChatCommand)));
    assert_eq!(registry.find(&"Reply".to_string()), Some(&Command::Reply(ReplyCommand)));
    assert_eq!(registry.find(&"reply".to_string()), None);
    assert_eq!(registry.find(&String::new()), None);
}

#[test]
fn a_command_is_registered_once() {
    let mut registry = MakaiCommandRegistry::<Command>::empty();
    assert!(registry.register_command().is_empty());
    assert_eq!(registry.find(&"chat".to_string()), None);
    registry.add_command(Command::Chat(ChatCommand));
    registry.add_command(Command::Reset(ResetCommand));
    registry.add_command(Command::Chat(ChatCommand));
    let names: Vec<&str> = registry.register_command().iter().map(|r| r.name).collect();
    assert_eq!(names, vec!["chat", "reset"]);
    assert_eq!(registry.find(&"Remember".to_string()), None);
}

#[test]
fn an_unknown_command_is_answered_with_a_note_and_changes_nothing() {
    let registry = MakaiCommandRegistry::default();
    let mut ctx = MakaiContext::new();
    ctx.channel(1).add_message(said(1, "kept"));
    let before = ctx.snapshot();
    let cmd = invocation("dance", 1);
    assert_eq!(registry.acknowledgement(&cmd), Acknowledgement::Ephemeral("not implemented :("));
    assert_eq!(registry.handle_command(&mut ctx, &cmd), Ok(CommandStep::Done));
    assert_eq!(ctx.snapshot(), before);
}

#[test]
fn the_registry_acknowledges_as_the_named_command_does() {
    let registry = MakaiCommandRegistry::default();
    assert_eq!(registry.acknowledgement(&invocation("chat", 1)), Acknowledgement::Defer);
    assert_eq!(
        registry.acknowledgement(&invocation("Remember", 1)),
        Acknowledgement::Ephemeral("Added to memory")
    );
}

#[test]
fn the_general_failure_notice_says_no_more_than_that_it_failed() {
    assert_eq!(failure_notice(), "An error occoured while processing your command!");
    assert_eq!(notice(CommandError::MissingPrompt), failure_notice());
    assert_eq!(notice(CommandError::MissingMessage), failure_notice());
}

#[test]
fn a_bot_that_does_not_know_itself_yet_asks_to_try_again() {
    let text = notice(CommandError::UnknownBotUser);
    assert_eq!(text, "I am not ready yet, please try again shortly!");
    assert_ne!(text, failure_notice());
}

#[test]
fn every_failure_is_closed_with_a_notice_and_no_success_is() {
    assert_eq!(closing_notice(CommandOutcome::Done), None);
    assert_eq!(closing_notice(CommandOutcome::FailedOutside), Some(failure_notice()));
    assert_eq!(
        closing_notice(CommandOutcome::Failed(CommandError::MissingPrompt)),
        Some(failure_notice())
    );
    assert_eq!(
        closing_notice(CommandOutcome::Failed(CommandError::UnknownBotUser)),
        Some("I am not ready yet, please try again shortly!")
    );
}

#[test]
fn reply_before_the_bot_knows_itself_asks_to_try_again_and_files_nothing() {
    let registry = MakaiCommandRegistry::default();
    let mut ctx = MakaiContext::new();
    ctx.channel(1).add_message(said(1, "kept"));
    let before = ctx.snapshot();
    let mut cmd = invocation("Reply", 1);
    cmd.messages.push(posted(5, ann(), "answer me"));
    let res = registry.handle_command(&mut ctx, &cmd);
    assert_eq!(res, Err(CommandError::UnknownBotUser));
    assert_eq!(ctx.snapshot(), before);
    let outcome = match res {
        Ok(_) => CommandOutcome::Done,
        Err(error) => CommandOutcome::Failed(error),
    };
    assert_eq!(closing_notice(outcome), Some("I am not ready yet, please try again shortly!"));
}

#[test]
fn names_are_compared_letter_for_letter() {
    assert!(is_named(&"prompt".to_string(), "prompt"));
    assert!(!is_named(&"Prompt".to_string(), "prompt"));
    assert!(!is_named(&"prompt ".to_string(), "prompt"));
    assert!(is_named(&String::new(), ""));
}

#[test]
fn reset_clears_the_channel_it_is_invoked_in_and_no_other() {
    let registry = MakaiCommandRegistry::default();
    let mut ctx = MakaiContext::new();
    ctx.channel(1).add_message(said(1, "one"));
    ctx.channel(2).add_message(said(2, "two"));
    ctx.set_user(bot());
    assert_eq!(registry.handle_command(&mut ctx, &invocation("reset", 2)), Ok(CommandStep::Done));
    assert_eq!(contents(&ctx, 1), vec!["one"]);
    assert!(contents(&ctx, 2).is_empty());
    assert_eq!(ctx.user(), Some(bot()));
    assert_eq!(ResetCommand.run(&mut ctx, &invocation("reset", 3)), Ok(CommandStep::Done));
    assert!(contents(&ctx, 3).is_empty());
    assert_eq!(contents(&ctx, 1), vec!["one"]);
}

#[test]
fn remember_fails_while_the_bot_does_not_know_itself() {
    let mut ctx = MakaiContext::new();
    let mut cmd = invocation("Remember", 1);
    cmd.messages.push(posted(5, ann(), "note this"));
    assert_eq!(RememberCommand.run(&mut ctx, &cmd), Err(CommandError::UnknownBotUser));
    assert!(ctx.get(1).is_none());
}

#[test]
fn remember_fails_without_a_message() {
    let mut ctx = MakaiContext::new();
    ctx.set_user(bot());
    assert_eq!(
        RememberCommand.run(&mut ctx, &invocation("Remember", 1)),
        Err(CommandError::MissingMessage)
    );
    assert!(ctx.get(1).is_none());
}

#[test]
fn remember_files_the_message_in_the_channel() {
    let registry = MakaiCommandRegistry::default();
    let mut ctx = MakaiContext::new();
    ctx.set_user(bot());
    ctx.channel(2).add_message(said(1, "elsewhere"));
    let mut cmd = invocation("Remember", 1);
    cmd.messages.push(PlatformMessage {
        embeds: vec![Embed { title: Some("T".to_string()), description: None }],
        ..posted(5, ann(), "note this")
    });
    assert_eq!(registry.handle_command(&mut ctx, &cmd), Ok(CommandStep::Done));
    let log = ctx.get(1).unwrap().history(None);
    assert_eq!(
        log,
        vec![MakaiMessage {
            message_id: Some(5),
            timestamp: Timestamp { secs: 500, nanos: 0 },
            sender: MessageSender::User("Ann".to_string()),
            content: "note this\nThe user's message included a link: Title: `T`, Description: `Unknown`"
                .to_string(),
        }]
    );
    assert_eq!(contents(&ctx, 2), vec!["elsewhere"]);

    let mut own = invocation("Remember", 1);
    own.messages.push(PlatformMessage {
        timestamp: Timestamp { secs: 600, nanos: 0 },
        ..posted(6, bot(), "my words")
    });
    assert_eq!(RememberCommand.run(&mut ctx, &own), Ok(CommandStep::Done));
    let log = ctx.get(1).unwrap().history(None);
    assert_eq!(log.len(), 2);
    assert_eq!(log[1].sender, MessageSender::MakaiBot);
}

#[test]
fn reply_fails_as_remember_does() {
    let mut ctx = MakaiContext::new();
    let mut cmd = invocation("Reply", 1);
    cmd.messages.push(posted(5, ann(), "answer me"));
    assert_eq!(ReplyCommand.run(&mut ctx, &cmd), Err(CommandError::UnknownBotUser));
    ctx.set_user(bot());
    assert_eq!(
        ReplyCommand.run(&mut ctx, &invocation("Reply", 1)),
        Err(CommandError::MissingMessage)
    );
    assert!(ctx.get(1).is_none());
}

#[test]
fn reply_hands_the_message_to_the_model_and_files_nothing_yet() {
    let mut ctx = MakaiContext::new();
    ctx.set_user(bot());
    let mut cmd = invocation("Reply", 4);
    cmd.messages.push(posted(5, ann(), "answer me"));
    let step = ReplyCommand.run(&mut ctx, &cmd).unwrap();
    assert_eq!(
        step,
        CommandStep::AskModel(MakaiMessage {
            message_id: Some(5),
            timestamp: Timestamp { secs: 500, nanos: 0 },
            sender: MessageSender::User("Ann".to_string()),
            content: "answer me".to_string(),
        })
    );
    assert_eq!(ctx.get(4).map(|log| log.len()), Some(0));
}

#[test]
fn chat_fails_without_a_text_prompt() {
    let mut ctx = MakaiContext::new();
    assert_eq!(
        ChatCommand.run(&mut ctx, &invocation("chat", 1)),
        Err(CommandError::MissingPrompt)
    );
    let mut cmd = invocation("chat", 1);
    cmd.options.push(text_option("other", "text"));
    assert_eq!(ChatCommand.run(&mut ctx, &cmd), Err(CommandError::MissingPrompt));
    let mut cmd = invocation("chat", 1);
    cmd.options.push(CommandOption { name: "prompt".to_string(), value: OptionValue::Other });
    cmd.options.push(text_option("prompt", "too late"));
    assert_eq!(ChatCommand.run(&mut ctx, &cmd), Err(CommandError::MissingPrompt));
    assert!(ctx.get(1).is_none());
}

#[test]
fn chat_hands_the_prompt_to_the_model_in_the_users_name() {
    let registry = MakaiCommandRegistry::default();
    let mut ctx = MakaiContext::new();
    let mut cmd = invocation("chat", 3);
    cmd.options.push(text_option("style", "terse"));
    cmd.options.push(text_option("prompt", "tell me"));
    cmd.options.push(text_option("prompt", "ignored"));
    match registry.handle_command(&mut ctx, &cmd) {
        Ok(CommandStep::AskModel(message)) => {
            assert_eq!(message.message_id, None);
            assert_eq!(message.sender, MessageSender::User("Ann".to_string()));
            assert_eq!(message.content, "tell me");
            assert!(message.timestamp.secs > 1_600_000_000);
        }
        other => panic!("unexpected: {other:?}"),
    }
    assert_eq!(ctx.get(3).map(|log| log.len()), Some(0));
}

#[test]
fn chat_message_at_takes_the_instant_given() {
    let mut cmd = invocation("chat", 3);
    cmd.user = User { id: 1, name: "bob".to_string(), global_name: None };
    cmd.options.push(text_option("prompt", ""));
    assert_eq!(
        ChatCommand::message_at(&cmd, Timestamp { secs: 12, nanos: 34 }),
        Ok(MakaiMessage {
            message_id: None,
            timestamp: Timestamp { secs: 12, nanos: 34 },
            sender: MessageSender::User("bob".to_string()),
            content: String::new(),
        })
    );
    assert_eq!(
        ChatCommand::message_at(&invocation("chat", 3), Timestamp { secs: 12, nanos: 34 }),
        Err(CommandError::MissingPrompt)
    );
}

#[test]
fn adding_a_command_again_keeps_its_place_and_the_others() {
    let mut registry = MakaiCommandRegistry::<Command>::empty();
    registry.add_command(Command::Remember(RememberCommand));
    registry.add_command(Command::Reply(ReplyCommand));
    registry.add_command(Command::Reset(ResetCommand));
    registry.add_command(Command::Remember(RememberCommand));
    registry.add_command(Command::Reply(ReplyCommand));
    let names: Vec<&str> = registry.register_command().iter().map(|r| r.name).collect();
    assert_eq!(names, vec!["Remember", "Reply", "reset"]);
    assert_eq!(registry.find(&"Reply".to_string()), Some(&Command::Reply(ReplyCommand)));
    assert_eq!(registry.find(&"chat".to_string()), None);
}
