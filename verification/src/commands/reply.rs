//! The command that has the bot answer a posted message.

use vstd::prelude::*;
use crate::ai::{MakaiMessage, quoted_message};
use crate::commands::{
    Acknowledgement, AcknowledgementView, CommandError, CommandKind, CommandName,
    CommandRegistration, CommandRegistrationView, CommandStep, CommandStepView, MakaiCommand,
    all_contexts, everywhere, outcome_view, with_channel,
};
use crate::context::{ContextView, MakaiContext};
use crate::model::{CommandInteraction, CommandInteractionView};
use crate::time::Timestamp;

verus! {

/// `Reply`: asks the model for an answer to the message that it is invoked
/// on.
#[derive(Clone, Copy, Debug, PartialEq, Eq, Structural)]
pub struct ReplyCommand;

impl MakaiCommand for ReplyCommand {
    open spec fn spec_name(&self) -> Seq<char> {
        "Reply"@
    }

    open spec fn spec_register(&self) -> CommandRegistrationView {
        CommandRegistrationView {
            name: "Reply"@,
            kind: CommandKind::Message,
            description: None,
            contexts: everywhere(),
            options: Seq::empty(),
        }
    }

    open spec fn spec_acknowledge(&self) -> AcknowledgementView {
        AcknowledgementView::Defer
    }

    /// Fails, and leaves the registry as it was, while the bot does not know
    /// itself or where no message came with the invocation. Else the channel
    /// gets its log, if it had none, and the message goes to the model; no
    /// log changes before the model has answered.
    open spec fn spec_run(&self, ctx: ContextView, cmd: CommandInteractionView, now: Timestamp) -> (
        ContextView,
        Result<CommandStepView, CommandError>,
    ) {
        match ctx.bot_user {
            None => (ctx, Err(CommandError::UnknownBotUser)),
            Some(bot) => if cmd.messages.len() == 0 {
                (ctx, Err(CommandError::MissingMessage))
            } else {
                (
                    with_channel(ctx, cmd.channel_id),
                    Ok(CommandStepView::AskModel(quoted_message(bot.id, cmd.messages[0]))),
                )
            },
        }
    }

    fn name(&self) -> (res: CommandName) {
        "Reply"
    }

    fn register(&self) -> (res: CommandRegistration) {
        let res = CommandRegistration {
            name: self.name(),
            kind: CommandKind::Message,
            description: None,
            contexts: all_contexts(),
            options: Vec::new(),
        };
        assert(res@.options =~= Seq::empty());
        res
    }

    fn acknowledge(&self) -> (res: Acknowledgement) {
        Acknowledgement::Defer
    }

    fn run(&self, bot_ctx: &mut MakaiContext, cmd: &CommandInteraction) -> (res: Result<
        CommandStep,
        CommandError,
    >)
        ensures
            forall|now: Timestamp|
                (final(bot_ctx)@, outcome_view(res)) == #[trigger] self.spec_run(
                    old(bot_ctx)@,
                    cmd@,
                    now,
                ),
    {
        let ghost any = Timestamp { secs: 0, nanos: 0 };
        let user = match bot_ctx.user() {
            Some(user) => user,
            None => {
                assert((bot_ctx@, Err::<CommandStepView, CommandError>(CommandError::UnknownBotUser))
                    == self.spec_run(old(bot_ctx)@, cmd@, any));
                return Err(CommandError::UnknownBotUser);
            },
        };
        let message = match MakaiMessage::from_message_command(user.id, cmd) {
            Some(message) => message,
            None => {
                assert((bot_ctx@, Err::<CommandStepView, CommandError>(CommandError::MissingMessage))
                    == self.spec_run(old(bot_ctx)@, cmd@, any));
                return Err(CommandError::MissingMessage);
            },
        };
        let _ = bot_ctx.channel(cmd.channel_id);
        assert((bot_ctx@, Ok::<CommandStepView, CommandError>(CommandStepView::AskModel(message@)))
            == self.spec_run(old(bot_ctx)@, cmd@, any));
        Ok(CommandStep::AskModel(message))
    }
}

} // verus!
