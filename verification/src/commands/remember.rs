//! The command that files a posted message in the channel's log.

use vstd::prelude::*;
use crate::ai::{MakaiMessage, quoted_message};
use crate::commands::{
    Acknowledgement, AcknowledgementView, CommandError, CommandKind, CommandName,
    CommandRegistration, CommandRegistrationView, CommandStep, CommandStepView, MakaiCommand,
    all_contexts, everywhere, outcome_view,
};
use crate::context::{ContextView, MakaiContext};
use crate::model::{CommandInteraction, CommandInteractionView};
use crate::time::Timestamp;

verus! {

/// `Remember`: files the message that it is invoked on in the log of the
/// channel, so that later prompts hold it.
#[derive(Clone, Copy, Debug, PartialEq, Eq, Structural)]
pub struct RememberCommand;

impl MakaiCommand for RememberCommand {
    open spec fn spec_name(&self) -> Seq<char> {
        "Remember"@
    }

    open spec fn spec_register(&self) -> CommandRegistrationView {
        CommandRegistrationView {
            name: "Remember"@,
            kind: CommandKind::Message,
            description: None,
            contexts: everywhere(),
            options: Seq::empty(),
        }
    }

    open spec fn spec_acknowledge(&self) -> AcknowledgementView {
        AcknowledgementView::Ephemeral("Added to memory"@)
    }

    /// Fails, and leaves the registry as it was, while the bot does not know
    /// itself or where no message came with the invocation. Else the message
    /// is filed in the channel's log, as the bot's own or as its author's.
    open spec fn spec_run(&self, ctx: ContextView, cmd: CommandInteractionView, now: Timestamp) -> (
        ContextView,
        Result<CommandStepView, CommandError>,
    ) {
        match ctx.bot_user {
            None => (ctx, Err(CommandError::UnknownBotUser)),
            Some(bot) => if cmd.messages.len() == 0 {
                (ctx, Err(CommandError::MissingMessage))
            } else {
                let message = quoted_message(bot.id, cmd.messages[0]);
                (
                    ContextView {
                        channels: ctx.channels.insert(
                            cmd.channel_id,
                            ctx.log(cmd.channel_id).insert(message.timestamp.key(), message),
                        ),
                        ..ctx
                    },
                    Ok(CommandStepView::Done),
                )
            },
        }
    }

    fn name(&self) -> (res: CommandName) {
        "Remember"
    }

    fn register(&self) -> (res: CommandRegistration) {
        let res = CommandRegistration {
            name: self.name(),
            kind: CommandKind::Message,
            description: None,
            contexts: all_contexts(),
            options: Vec::new(),
        };
        assert(res@.options =~= Seq::empty());
        res
    }

    fn acknowledge(&self) -> (res: Acknowledgement) {
        Acknowledgement::Ephemeral("Added to memory")
    }

    fn run(&self, bot_ctx: &mut MakaiContext, cmd: &CommandInteraction) -> (res: Result<
        CommandStep,
        CommandError,
    >)
        ensures
            forall|now: Timestamp|
                (final(bot_ctx)@, outcome_view(res)) == #[trigger] self.spec_run(
                    old(bot_ctx)@,
                    cmd@,
                    now,
                ),
    {
        let ghost any = Timestamp { secs: 0, nanos: 0 };
        let user = match bot_ctx.user() {
            Some(user) => user,
            None => {
                assert((bot_ctx@, Err::<CommandStepView, CommandError>(CommandError::UnknownBotUser))
                    == self.spec_run(old(bot_ctx)@, cmd@, any));
                return Err(CommandError::UnknownBotUser);
            },
        };
        let message = match MakaiMessage::from_message_command(user.id, cmd) {
            Some(message) => message,
            None => {
                assert((bot_ctx@, Err::<CommandStepView, CommandError>(CommandError::MissingMessage))
                    == self.spec_run(old(bot_ctx)@, cmd@, any));
                return Err(CommandError::MissingMessage);
            },
        };
        bot_ctx.channel(cmd.channel_id).add_message(message);
        assert((bot_ctx@, Ok::<CommandStepView, CommandError>(CommandStepView::Done))
            == self.spec_run(old(bot_ctx)@, cmd@, any));
        Ok(CommandStep::Done)
    }
}

} // verus!
