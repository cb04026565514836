//! The command that forgets what was said in a channel.

use vstd::prelude::*;
use crate::commands::{
    Acknowledgement, AcknowledgementView, CommandError, CommandKind, CommandName,
    CommandRegistration, CommandRegistrationView, CommandStep, CommandStepView, MakaiCommand,
    all_contexts, everywhere,
};
use crate::context::{ContextView, LogView, MakaiContext};
use crate::model::{CommandInteraction, CommandInteractionView};
use crate::time::Timestamp;

verus! {

/// `reset`: empties the log of the channel in which it is invoked.
#[derive(Clone, Copy, Debug, PartialEq, Eq, Structural)]
pub struct ResetCommand;

impl MakaiCommand for ResetCommand {
    open spec fn spec_name(&self) -> Seq<char> {
        "reset"@
    }

    open spec fn spec_register(&self) -> CommandRegistrationView {
        CommandRegistrationView {
            name: "reset"@,
            kind: CommandKind::ChatInput,
            description: Some("Reset message memory"@),
            contexts: everywhere(),
            options: Seq::empty(),
        }
    }

    open spec fn spec_acknowledge(&self) -> AcknowledgementView {
        AcknowledgementView::Ephemeral("Memory for this channel has been cleared"@)
    }

    /// The channel's log is empty afterwards; every other channel and the
    /// bot's identity stay as they were.
    open spec fn spec_run(&self, ctx: ContextView, cmd: CommandInteractionView, now: Timestamp) -> (
        ContextView,
        Result<CommandStepView, CommandError>,
    ) {
        (
            ContextView { channels: ctx.channels.insert(cmd.channel_id, LogView::empty()), ..ctx },
            Ok(CommandStepView::Done),
        )
    }

    fn name(&self) -> (res: CommandName) {
        "reset"
    }

    fn register(&self) -> (res: CommandRegistration) {
        let res = CommandRegistration {
            name: self.name(),
            kind: CommandKind::ChatInput,
            description: Some("Reset message memory"),
            contexts: all_contexts(),
            options: Vec::new(),
        };
        assert(res@.options =~= Seq::empty());
        res
    }

    fn acknowledge(&self) -> (res: Acknowledgement) {
        Acknowledgement::Ephemeral("Memory for this channel has been cleared")
    }

    fn run(&self, bot_ctx: &mut MakaiContext, cmd: &CommandInteraction) -> (res: Result<
        CommandStep,
        CommandError,
    >)
        ensures
            res is Ok,
            final(bot_ctx)@.log(cmd.channel_id) == LogView::empty(),
            forall|other: u64|
                other != cmd.channel_id ==> #[trigger] final(bot_ctx)@.log(other) == old(
                    bot_ctx,
                )@.log(other),
            final(bot_ctx)@.bot_user == old(bot_ctx)@.bot_user,
    {
        bot_ctx.channel(cmd.channel_id).clear();
        assert((bot_ctx@, Ok::<CommandStepView, CommandError>(CommandStepView::Done))
            == self.spec_run(old(bot_ctx)@, cmd@, Timestamp { secs: 0, nanos: 0 }));
        Ok(CommandStep::Done)
    }
}

} // verus!
