//! The command that has the bot answer a prompt.

use vstd::prelude::*;
use vstd::string::StringExecFns;
use crate::ai::{MakaiMessage, MessageSender, MessageView, SenderView};
use crate::commands::{
    Acknowledgement, AcknowledgementView, CommandError, CommandKind, CommandName,
    CommandOptionSpec, CommandOptionSpecView, CommandRegistration, CommandRegistrationView,
    CommandStep, CommandStepView, MakaiCommand, all_contexts, everywhere, is_named, with_channel,
};
use crate::context::{ContextView, MakaiContext};
use crate::model::{
    CommandInteraction, CommandInteractionView, CommandOption, CommandOptionView, OptionValue,
    OptionValueView, UserView,
};
use crate::time::Timestamp;
use crate::utils::{display_name, user_to_name};

verus! {

/// `chat`: asks the model for an answer to the text given as `prompt`.
#[derive(Clone, Copy, Debug, PartialEq, Eq, Structural)]
pub struct ChatCommand;

/// The first of `options` that is named `prompt`, if there is one.
pub open spec fn prompt_option(options: Seq<CommandOptionView>) -> Option<CommandOptionView>
    decreases options.len(),
{
    if options.len() == 0 {
        None
    } else if options[0].name == "prompt"@ {
        Some(options[0])
    } else {
        prompt_option(options.drop_first())
    }
}

/// The text that an invocation of `chat` is to work on: the value of the
/// first option named `prompt`, where that is a text.
pub open spec fn prompt_text(options: Seq<CommandOptionView>) -> Option<Seq<char>> {
    match prompt_option(options) {
        Some(option) => match option.value {
            OptionValueView::String(text) => Some(text),
            OptionValueView::Other => None,
        },
        None => None,
    }
}

/// The message that stands for a prompt which `user` gave at `now`.
pub open spec fn prompt_message(user: UserView, prompt: Seq<char>, now: Timestamp) -> MessageView {
    MessageView {
        message_id: None,
        timestamp: now,
        sender: SenderView::User(display_name(user)),
        content: prompt,
    }
}

fn find_prompt(options: &Vec<CommandOption>) -> (res: Option<&String>)
    ensures
        match res {
            Some(text) => prompt_text(options.deep_view()) == Some(text@),
            None => prompt_text(options.deep_view()) is None,
        },
{
    let mut i: usize = 0;
    assert(options.deep_view().skip(0) =~= options.deep_view());
    while i < options.len()
        invariant
            i <= options.len(),
            prompt_option(options.deep_view()) == prompt_option(options.deep_view().skip(i as int)),
        decreases options.len() - i,
    {
        let ghost rest = options.deep_view().skip(i as int);
        assert(rest[0] == options[i as int]@);
        if is_named(&options[i].name, "prompt") {
            return match &options[i].value {
                OptionValue::String(text) => Some(text),
                OptionValue::Other => None,
            };
        }
        assert(rest.drop_first() =~= options.deep_view().skip(i + 1));
        i = i + 1;
    }
    assert(options.deep_view().skip(i as int).len() == 0);
    None
}

impl ChatCommand {
    /// The message that stands for the invocation `cmd`, had it come at
    /// `now`; `MissingPrompt` where it holds no text to work on.
    pub fn message_at(cmd: &CommandInteraction, now: Timestamp) -> (res: Result<
        MakaiMessage,
        CommandError,
    >)
        ensures
            match prompt_text(cmd@.options) {
                Some(prompt) => res is Ok && res->Ok_0@ == prompt_message(cmd@.user, prompt, now),
                None => res == Err::<MakaiMessage, CommandError>(CommandError::MissingPrompt),
            },
    {
        match find_prompt(&cmd.options) {
            Some(prompt) => Ok(
                MakaiMessage {
                    message_id: None,
                    timestamp: now,
                    sender: MessageSender::User(String::from_str(user_to_name(&cmd.user))),
                    content: prompt.clone(),
                },
            ),
            None => Err(CommandError::MissingPrompt),
        }
    }
}

impl MakaiCommand for ChatCommand {
    open spec fn spec_name(&self) -> Seq<char> {
        "chat"@
    }

    open spec fn spec_register(&self) -> CommandRegistrationView {
        CommandRegistrationView {
            name: "chat"@,
            kind: CommandKind::ChatInput,
            description: Some("Chat to Makai LLM"@),
            contexts: everywhere(),
            options: seq![
                CommandOptionSpecView {
                    name: "prompt"@,
                    description: "The prompt to send"@,
                    required: true,
                },
            ],
        }
    }

    open spec fn spec_acknowledge(&self) -> AcknowledgementView {
        AcknowledgementView::Defer
    }

    /// Fails, and leaves the registry as it was, where the invocation holds
    /// no text to work on. Else the channel gets its log, if it had none, and
    /// the prompt goes to the model as a message of the invoking user, of the
    /// instant that the clock shows; no log changes before the model has
    /// answered.
    open spec fn spec_run(&self, ctx: ContextView, cmd: CommandInteractionView, now: Timestamp) -> (
        ContextView,
        Result<CommandStepView, CommandError>,
    ) {
        match prompt_text(cmd.options) {
            None => (ctx, Err(CommandError::MissingPrompt)),
            Some(prompt) => (
                with_channel(ctx, cmd.channel_id),
                Ok(CommandStepView::AskModel(prompt_message(cmd.user, prompt, now))),
            ),
        }
    }

    fn name(&self) -> (res: CommandName) {
        "chat"
    }

    fn register(&self) -> (res: CommandRegistration) {
        let mut options: Vec<CommandOptionSpec> = Vec::new();
        options.push(
            CommandOptionSpec { name: "prompt", description: "The prompt to send", required: true },
        );
        let res = CommandRegistration {
            name: self.name(),
            kind: CommandKind::ChatInput,
            description: Some("Chat to Makai LLM"),
            contexts: all_contexts(),
            options,
        };
        assert(res@.options =~= self.spec_register().options);
        res
    }

    fn acknowledge(&self) -> (res: Acknowledgement) {
        Acknowledgement::Defer
    }

    fn run(&self, bot_ctx: &mut MakaiContext, cmd: &CommandInteraction) -> (res: Result<
        CommandStep,
        CommandError,
    >) {
        let now = Timestamp::now();
        match Self::message_at(cmd, now) {
            Ok(message) => {
                let _ = bot_ctx.channel(cmd.channel_id);
                assert((
                    bot_ctx@,
                    Ok::<CommandStepView, CommandError>(CommandStepView::AskModel(message@)),
                ) == self.spec_run(old(bot_ctx)@, cmd@, now));
                Ok(CommandStep::AskModel(message))
            },
            Err(e) => {
                assert((bot_ctx@, Err::<CommandStepView, CommandError>(e)) == self.spec_run(
                    old(bot_ctx)@,
                    cmd@,
                    now,
                ));
                Err(e)
            },
        }
    }
}

} // verus!
