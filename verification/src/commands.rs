//! The commands that users can invoke, and the registry that finds the
//! command for an invocation.

use vstd::prelude::*;
use vstd::string::StringExecFns;
use crate::ai::{MakaiMessage, MessageView};
use crate::commands::chat::ChatCommand;
use crate::commands::remember::RememberCommand;
use crate::commands::reply::ReplyCommand;
use crate::commands::reset::ResetCommand;
use crate::context::{ContextView, MakaiContext};
use crate::model::{CommandInteraction, CommandInteractionView};
use crate::time::Timestamp;

pub mod chat;
pub mod remember;
pub mod reply;
pub mod reset;

verus! {

/// The name by which the platform knows a command.
pub type CommandName = &'static str;

/// How a command is invoked on the platform.
#[derive(Clone, Copy, Debug, PartialEq, Eq, Structural)]
pub enum CommandKind {
    /// Typed into the chat input, with options.
    ChatInput,
    /// Picked from the menu of a message.
    Message,
}

/// Where a command can be invoked.
#[derive(Clone, Copy, Debug, PartialEq, Eq, Structural)]
pub enum InteractionContext {
    Guild,
    BotDm,
    PrivateChannel,
}

/// A text option that a command declares.
#[derive(Debug, PartialEq, Eq)]
pub struct CommandOptionSpec {
    pub name: CommandName,
    pub description: &'static str,
    pub required: bool,
}

/// A declared option as contracts see it.
pub struct CommandOptionSpecView {
    pub name: Seq<char>,
    pub description: Seq<char>,
    pub required: bool,
}

impl View for CommandOptionSpec {
    type V = CommandOptionSpecView;

    open spec fn view(&self) -> CommandOptionSpecView {
        CommandOptionSpecView {
            name: self.name@,
            description: self.description@,
            required: self.required,
        }
    }
}

impl DeepView for CommandOptionSpec {
    type V = CommandOptionSpecView;

    open spec fn deep_view(&self) -> CommandOptionSpecView {
        self@
    }
}

/// What a command tells the platform of itself when it is registered.
#[derive(Debug, PartialEq, Eq)]
pub struct CommandRegistration {
    pub name: CommandName,
    pub kind: CommandKind,
    pub description: Option<&'static str>,
    /// In the order in which they are declared.
    pub contexts: Vec<InteractionContext>,
    pub options: Vec<CommandOptionSpec>,
}

/// A registration as contracts see it.
pub struct CommandRegistrationView {
    pub name: Seq<char>,
    pub kind: CommandKind,
    pub description: Option<Seq<char>>,
    pub contexts: Seq<InteractionContext>,
    pub options: Seq<CommandOptionSpecView>,
}

impl View for CommandRegistration {
    type V = CommandRegistrationView;

    open spec fn view(&self) -> CommandRegistrationView {
        CommandRegistrationView {
            name: self.name@,
            kind: self.kind,
            description: match self.description {
                Some(d) => Some(d@),
                None => None,
            },
            contexts: self.contexts@,
            options: self.options.deep_view(),
        }
    }
}

/// The three contexts in which every command here can be invoked.
pub open spec fn everywhere() -> Seq<InteractionContext> {
    seq![InteractionContext::BotDm, InteractionContext::Guild, InteractionContext::PrivateChannel]
}

/// The three contexts in which every command here can be invoked.
pub fn all_contexts() -> (res: Vec<InteractionContext>)
    ensures
        res@ == everywhere(),
{
    let mut contexts: Vec<InteractionContext> = Vec::new();
    contexts.push(InteractionContext::BotDm);
    contexts.push(InteractionContext::Guild);
    contexts.push(InteractionContext::PrivateChannel);
    assert(contexts@ =~= everywhere());
    contexts
}

/// The first answer that the platform gets to an invocation, before the
/// command does its work.
#[derive(Debug, PartialEq, Eq)]
pub enum Acknowledgement {
    /// "Working on it": the answer proper follows. Without it the command
    /// does not go on.
    Defer,
    /// A note that only the invoking user sees. The command goes on whether
    /// or not the note could be delivered.
    Ephemeral(&'static str),
}

/// An acknowledgement as contracts see it.
pub enum AcknowledgementView {
    Defer,
    Ephemeral(Seq<char>),
}

impl View for Acknowledgement {
    type V = AcknowledgementView;

    open spec fn view(&self) -> AcknowledgementView {
        match self {
            Acknowledgement::Defer => AcknowledgementView::Defer,
            Acknowledgement::Ephemeral(text) => AcknowledgementView::Ephemeral(text@),
        }
    }
}

impl Acknowledgement {
    /// Whether the command must give up when this acknowledgement cannot be
    /// delivered.
    pub fn must_succeed(&self) -> (b: bool)
        ensures
            b == (self@ is Defer),
    {
        match self {
            Acknowledgement::Defer => true,
            Acknowledgement::Ephemeral(_) => false,
        }
    }
}

/// Why a command could not do its work.
#[derive(Clone, Copy, Debug, PartialEq, Eq, Structural)]
pub enum CommandError {
    /// The invocation lacks the text that the command was to work on.
    MissingPrompt,
    /// The bot does not know its own identity yet, so it cannot tell its own
    /// messages from those of users. The user may try again shortly.
    UnknownBotUser,
    /// The invocation came without the message that it points at.
    MissingMessage,
}

/// What is left to do once a command has done what it can do by itself.
#[derive(Debug, PartialEq, Eq)]
pub enum CommandStep {
    /// Nothing.
    Done,
    /// Ask the model for a reply to this message in the invocation's channel,
    /// then end the exchange with what the model brought.
    AskModel(MakaiMessage),
}

/// A step as contracts see it.
pub enum CommandStepView {
    Done,
    AskModel(MessageView),
}

impl View for CommandStep {
    type V = CommandStepView;

    open spec fn view(&self) -> CommandStepView {
        match self {
            CommandStep::Done => CommandStepView::Done,
            CommandStep::AskModel(message) => CommandStepView::AskModel(message@),
        }
    }
}

/// The result of running a command, as contracts see it.
pub open spec fn outcome_view(res: Result<CommandStep, CommandError>) -> Result<
    CommandStepView,
    CommandError,
> {
    match res {
        Ok(step) => Ok(step@),
        Err(e) => Err(e),
    }
}

/// The registry with the log of `channel` in place, empty if it had none.
pub open spec fn with_channel(ctx: ContextView, channel: u64) -> ContextView {
    ContextView { channels: ctx.channels.insert(channel, ctx.log(channel)), ..ctx }
}

/// A command of the bot.
pub trait MakaiCommand: Send + Sync {
    /// The name by which the platform knows the command.
    spec fn spec_name(&self) -> Seq<char>;

    /// What the command tells the platform of itself.
    spec fn spec_register(&self) -> CommandRegistrationView;

    /// The first answer to an invocation.
    spec fn spec_acknowledge(&self) -> AcknowledgementView;

    /// What running the command on `cmd` makes of the registry `ctx` and
    /// what it hands back, where the clock shows `now`.
    spec fn spec_run(&self, ctx: ContextView, cmd: CommandInteractionView, now: Timestamp) -> (
        ContextView,
        Result<CommandStepView, CommandError>,
    );

    fn name(&self) -> (res: CommandName)
        ensures
            res@ == self.spec_name(),
    ;

    fn register(&self) -> (res: CommandRegistration)
        ensures
            res@ == self.spec_register(),
    ;

    fn acknowledge(&self) -> (res: Acknowledgement)
        ensures
            res@ == self.spec_acknowledge(),
    ;

    /// Does the command's own work on the registry. It reads the clock at
    /// most once.
    fn run(&self, bot_ctx: &mut MakaiContext, cmd: &CommandInteraction) -> (res: Result<
        CommandStep,
        CommandError,
    >)
        ensures
            exists|now: Timestamp|
                now.in_range() && (final(bot_ctx)@, outcome_view(res)) == #[trigger] self.spec_run(
                    old(bot_ctx)@,
                    cmd@,
                    now,
                ),
    ;
}

/// One of the commands that the bot knows.
#[derive(Clone, Copy, Debug, PartialEq, Eq, Structural)]
pub enum Command {
    Reply(ReplyCommand),
    Chat(ChatCommand),
    Remember(RememberCommand),
    Reset(ResetCommand),
}

impl MakaiCommand for Command {
    open spec fn spec_name(&self) -> Seq<char> {
        match self {
            Command::Reply(c) => c.spec_name(),
            Command::Chat(c) => c.spec_name(),
            Command::Remember(c) => c.spec_name(),
            Command::Reset(c) => c.spec_name(),
        }
    }

    open spec fn spec_register(&self) -> CommandRegistrationView {
        match self {
            Command::Reply(c) => c.spec_register(),
            Command::Chat(c) => c.spec_register(),
            Command::Remember(c) => c.spec_register(),
            Command::Reset(c) => c.spec_register(),
        }
    }

    open spec fn spec_acknowledge(&self) -> AcknowledgementView {
        match self {
            Command::Reply(c) => c.spec_acknowledge(),
            Command::Chat(c) => c.spec_acknowledge(),
            Command::Remember(c) => c.spec_acknowledge(),
            Command::Reset(c) => c.spec_acknowledge(),
        }
    }

    open spec fn spec_run(&self, ctx: ContextView, cmd: CommandInteractionView, now: Timestamp) -> (
        ContextView,
        Result<CommandStepView, CommandError>,
    ) {
        match self {
            Command::Reply(c) => c.spec_run(ctx, cmd, now),
            Command::Chat(c) => c.spec_run(ctx, cmd, now),
            Command::Remember(c) => c.spec_run(ctx, cmd, now),
            Command::Reset(c) => c.spec_run(ctx, cmd, now),
        }
    }

    fn name(&self) -> (res: CommandName) {
        match self {
            Command::Reply(c) => c.name(),
            Command::Chat(c) => c.name(),
            Command::Remember(c) => c.name(),
            Command::Reset(c) => c.name(),
        }
    }

    fn register(&self) -> (res: CommandRegistration) {
        match self {
            Command::Reply(c) => c.register(),
            Command::Chat(c) => c.register(),
            Command::Remember(c) => c.register(),
            Command::Reset(c) => c.register(),
        }
    }

    fn acknowledge(&self) -> (res: Acknowledgement) {
        match self {
            Command::Reply(c) => c.acknowledge(),
            Command::Chat(c) => c.acknowledge(),
            Command::Remember(c) => c.acknowledge(),
            Command::Reset(c) => c.acknowledge(),
        }
    }

    fn run(&self, bot_ctx: &mut MakaiContext, cmd: &CommandInteraction) -> (res: Result<
        CommandStep,
        CommandError,
    >) {
        match self {
            Command::Reply(c) => {
                let res = c.run(bot_ctx, cmd);
                proof {
                    lemma_runs_as(
                        |now: Timestamp| self.spec_run(old(bot_ctx)@, cmd@, now),
                        *c,
                        old(bot_ctx)@,
                        cmd@,
                        (bot_ctx@, outcome_view(res)),
                    );
                }
                res
            },
            Command::Chat(c) => {
                let res = c.run(bot_ctx, cmd);
                proof {
                    lemma_runs_as(
                        |now: Timestamp| self.spec_run(old(bot_ctx)@, cmd@, now),
                        *c,
                        old(bot_ctx)@,
                        cmd@,
                        (bot_ctx@, outcome_view(res)),
                    );
                }
                res
            },
            Command::Remember(c) => {
                let res = c.run(bot_ctx, cmd);
                proof {
                    lemma_runs_as(
                        |now: Timestamp| self.spec_run(old(bot_ctx)@, cmd@, now),
                        *c,
                        old(bot_ctx)@,
                        cmd@,
                        (bot_ctx@, outcome_view(res)),
                    );
                }
                res
            },
            Command::Reset(c) => {
                let res = c.run(bot_ctx, cmd);
                proof {
                    lemma_runs_as(
                        |now: Timestamp| self.spec_run(old(bot_ctx)@, cmd@, now),
                        *c,
                        old(bot_ctx)@,
                        cmd@,
                        (bot_ctx@, outcome_view(res)),
                    );
                }
                res
            },
        }
    }
}

/// Where `outer` says of every instant what the command `inner` leaves at
/// it, an instant of the clock that accounts for what `inner` left accounts
/// for it under `outer` too.
proof fn lemma_runs_as<C: MakaiCommand>(
    outer: spec_fn(Timestamp) -> (ContextView, Result<CommandStepView, CommandError>),
    inner: C,
    before: ContextView,
    cmd: CommandInteractionView,
    after: (ContextView, Result<CommandStepView, CommandError>),
)
    requires
        forall|now: Timestamp| #[trigger] outer(now) == inner.spec_run(before, cmd, now),
        exists|now: Timestamp| now.in_range() && after == #[trigger] inner.spec_run(before, cmd, now),
    ensures
        exists|now: Timestamp| now.in_range() && after == #[trigger] outer(now),
{
    let now = choose|now: Timestamp|
        now.in_range() && after == #[trigger] inner.spec_run(before, cmd, now);
    assert(outer(now) == inner.spec_run(before, cmd, now));
}

/// The first command of `commands` that goes by `name`, if there is one.
pub open spec fn named<C: MakaiCommand>(commands: Seq<C>, name: Seq<char>) -> Option<C>
    decreases commands.len(),
{
    if commands.len() == 0 {
        None
    } else if commands[0].spec_name() == name {
        Some(commands[0])
    } else {
        named(commands.drop_first(), name)
    }
}

/// `commands` with `command` in the place of the first command of its name,
/// or at the end where no command goes by its name.
pub open spec fn with_command<C: MakaiCommand>(commands: Seq<C>, command: C) -> Seq<C>
    decreases commands.len(),
{
    if commands.len() == 0 {
        seq![command]
    } else if commands[0].spec_name() == command.spec_name() {
        seq![command] + commands.drop_first()
    } else {
        seq![commands[0]] + with_command(commands.drop_first(), command)
    }
}

/// A command that was added is the one found under its name, and what is
/// found under any other name is what was found before.
pub proof fn lemma_added_command_is_found<C: MakaiCommand>(
    commands: Seq<C>,
    command: C,
    name: Seq<char>,
)
    ensures
        named(with_command(commands, command), name) == if name == command.spec_name() {
            Some(command)
        } else {
            named(commands, name)
        },
    decreases commands.len(),
{
    let added = with_command(commands, command);
    if commands.len() == 0 {
        assert(added[0] == command);
        assert(added.drop_first() =~= Seq::<C>::empty());
        assert(named(added.drop_first(), name) is None);
    } else if commands[0].spec_name() == command.spec_name() {
        assert(added[0] == command);
        assert(added.drop_first() =~= commands.drop_first());
    } else {
        lemma_added_command_is_found(commands.drop_first(), command, name);
        assert(added[0] == commands[0]);
        assert(added.drop_first() =~= with_command(commands.drop_first(), command));
    }
}

/// The commands that the bot answers to, in the order in which their names
/// were first added. `Command` holds the bot's own four; a bot with more
/// commands brings a type of its own that implements `MakaiCommand`.
#[derive(Debug)]
pub struct MakaiCommandRegistry<C: MakaiCommand> {
    commands: Vec<C>,
}

impl<C: MakaiCommand> View for MakaiCommandRegistry<C> {
    type V = Seq<C>;

    closed spec fn view(&self) -> Seq<C> {
        self.commands@
    }
}

impl<C: MakaiCommand> MakaiCommandRegistry<C> {
    /// A registry without commands.
    pub fn empty() -> (res: Self)
        ensures
            res@ == Seq::<C>::empty(),
    {
        Self { commands: Vec::new() }
    }

    /// Adds `command`, in place of the command that went by its name if
    /// there was one.
    pub fn add_command(&mut self, command: C)
        ensures
            final(self)@ == with_command(old(self)@, command),
    {
        let wanted = String::from_str(command.name());
        let ghost before = self@;
        let mut i: usize = 0;
        assert(before.take(0) + with_command(before.skip(0), command) =~= with_command(
            before,
            command,
        )) by {
            assert(before.skip(0) =~= before);
        }
        while i < self.commands.len()
            invariant
                i <= self.commands.len(),
                self@ == before,
                before == old(self)@,
                wanted@ == command.spec_name(),
                with_command(before, command) == before.take(i as int) + with_command(
                    before.skip(i as int),
                    command,
                ),
            decreases self.commands.len() - i,
        {
            let ghost rest = before.skip(i as int);
            assert(rest[0] == self.commands[i as int]);
            if is_named(&wanted, self.commands[i].name()) {
                assert(with_command(rest, command) == seq![command] + rest.drop_first());
                assert(before.take(i as int) + (seq![command] + rest.drop_first())
                    =~= before.update(i as int, command));
                self.commands.set(i, command);
                return ;
            }
            assert(with_command(rest, command) == seq![rest[0]] + with_command(
                rest.drop_first(),
                command,
            ));
            assert(rest.drop_first() =~= before.skip(i + 1));
            assert(before.take(i as int) + (seq![rest[0]] + with_command(rest.drop_first(), command))
                =~= before.take(i + 1) + with_command(before.skip(i + 1), command));
            i = i + 1;
        }
        assert(with_command(before.skip(i as int), command) == seq![command]);
        assert(before.take(i as int) + seq![command] =~= before.push(command));
        self.commands.push(command);
    }

    /// The command that goes by `name`, if one is registered.
    pub fn find(&self, name: &String) -> (res: Option<&C>)
        ensures
            match res {
                Some(command) => named(self@, name@) == Some(*command),
                None => named(self@, name@) is None,
            },
    {
        let mut i: usize = 0;
        assert(self@.skip(0) =~= self@);
        while i < self.commands.len()
            invariant
                i <= self.commands.len(),
                named(self@, name@) == named(self@.skip(i as int), name@),
            decreases self.commands.len() - i,
        {
            assert(self@.skip(i as int)[0] == self.commands[i as int]);
            if is_named(name, self.commands[i].name()) {
                return Some(&self.commands[i]);
            }
            assert(self@.skip(i as int).drop_first() =~= self@.skip(i + 1));
            i = i + 1;
        }
        None
    }

    /// What to tell the platform of each registered command, in the order of
    /// the registry.
    pub fn register_command(&self) -> (res: Vec<CommandRegistration>)
        ensures
            res.len() == self@.len(),
            forall|i: int| 0 <= i < res.len() ==> (#[trigger] res[i])@ == self@[i].spec_register(),
    {
        let mut out: Vec<CommandRegistration> = Vec::new();
        let mut i: usize = 0;
        while i < self.commands.len()
            invariant
                i <= self.commands.len(),
                out.len() == i,
                forall|j: int| 0 <= j < i ==> (#[trigger] out[j])@ == self@[j].spec_register(),
            decreases self.commands.len() - i,
        {
            out.push(self.commands[i].register());
            i = i + 1;
        }
        out
    }

    /// The first answer to `interaction`: that of the command it names, or,
    /// where no such command is registered, a note that says so.
    pub fn acknowledgement(&self, interaction: &CommandInteraction) -> (res: Acknowledgement)
        ensures
            res@ == match named(self@, interaction.name@) {
                Some(command) => command.spec_acknowledge(),
                None => AcknowledgementView::Ephemeral("not implemented :("@),
            },
    {
        match self.find(&interaction.name) {
            Some(command) => command.acknowledge(),
            None => Acknowledgement::Ephemeral("not implemented :("),
        }
    }

    /// Runs the command that `interaction` names. Where no such command is
    /// registered, nothing happens and nothing is left to do.
    pub fn handle_command(&self, bot_ctx: &mut MakaiContext, interaction: &CommandInteraction) -> (res:
        Result<CommandStep, CommandError>)
        ensures
            named(self@, interaction.name@) matches Some(command) ==> exists|now: Timestamp|
                now.in_range() && (final(bot_ctx)@, outcome_view(res))
                    == #[trigger] command.spec_run(old(bot_ctx)@, interaction@, now),
            named(self@, interaction.name@) is None ==> res == Ok::<CommandStep, CommandError>(
                CommandStep::Done,
            ) && final(bot_ctx)@ == old(bot_ctx)@,
    {
        let ghost found = named(self@, interaction.name@);
        match self.find(&interaction.name) {
            Some(command) => {
                let res = command.run(bot_ctx, interaction);
                proof {
                    lemma_runs_as(
                        |now: Timestamp| command.spec_run(old(bot_ctx)@, interaction@, now),
                        *command,
                        old(bot_ctx)@,
                        interaction@,
                        (bot_ctx@, outcome_view(res)),
                    );
                    let chosen = found->0;
                    assert(found == Some(*command) && chosen == *command);
                    assert(exists|now: Timestamp|
                        now.in_range() && (bot_ctx@, outcome_view(res))
                            == #[trigger] chosen.spec_run(old(bot_ctx)@, interaction@, now));
                }
                res
            },
            None => {
                assert(found is None);
                Ok(CommandStep::Done)
            },
        }
    }
}

impl Default for MakaiCommandRegistry<Command> {
    /// The registry of the bot's own four commands.
    fn default() -> (res: Self)
        ensures
            res@ == seq![
                Command::Reply(ReplyCommand),
                Command::Chat(ChatCommand),
                Command::Remember(RememberCommand),
                Command::Reset(ResetCommand),
            ],
    {
        let mut reg = Self::empty();
        reg.add_command(Command::Reply(ReplyCommand));
        reg.add_command(Command::Chat(ChatCommand));
        reg.add_command(Command::Remember(RememberCommand));
        reg.add_command(Command::Reset(ResetCommand));
        assert(reg@ =~= seq![
            Command::Reply(ReplyCommand),
            Command::Chat(ChatCommand),
            Command::Remember(RememberCommand),
            Command::Reset(ResetCommand),
        ]) by {
            reveal_strlit("Reply");
            reveal_strlit("chat");
            reveal_strlit("Remember");
            reveal_strlit("reset");
            reveal_with_fuel(with_command, 5);
            assert("Reply"@.len() == 5 && "chat"@.len() == 4 && "Remember"@.len() == 8
                && "reset"@.len() == 5);
            assert("Reply"@ != "chat"@ && "Reply"@ != "Remember"@ && "chat"@ != "Remember"@);
            assert("Reply"@[0] != "reset"@[0]);
            assert("chat"@ != "reset"@ && "Remember"@ != "reset"@);
            assert(Command::Reply(ReplyCommand).spec_name() == "Reply"@);
            assert(Command::Chat(ChatCommand).spec_name() == "chat"@);
            assert(Command::Remember(RememberCommand).spec_name() == "Remember"@);
            assert(Command::Reset(ResetCommand).spec_name() == "reset"@);
            let one = seq![Command::Reply(ReplyCommand)];
            let two = with_command(one, Command::Chat(ChatCommand));
            let three = with_command(two, Command::Remember(RememberCommand));
            assert(with_command(Seq::<Command>::empty(), Command::Reply(ReplyCommand)) =~= one);
            assert(two =~= seq![Command::Reply(ReplyCommand), Command::Chat(ChatCommand)]);
            assert(three =~= seq![
                Command::Reply(ReplyCommand),
                Command::Chat(ChatCommand),
                Command::Remember(RememberCommand),
            ]);
        }
        reg
    }
}

/// What the user is told when a command has failed and nothing more exact
/// can be said.
pub open spec fn failure_text() -> Seq<char> {
    "An error occoured while processing your command!"@
}

/// What the user is told of the failure `error`: to try again shortly where
/// the bot does not know itself yet, which mends itself; else no more than
/// that the command has failed.
pub open spec fn notice_text(error: CommandError) -> Seq<char> {
    match error {
        CommandError::UnknownBotUser => "I am not ready yet, please try again shortly!"@,
        CommandError::MissingPrompt => failure_text(),
        CommandError::MissingMessage => failure_text(),
    }
}

/// What the user is told when a command has failed and nothing more exact
/// can be said.
pub fn failure_notice() -> (res: &'static str)
    ensures
        res@ == failure_text(),
{
    "An error occoured while processing your command!"
}

/// What the user is told of the failure `error`. While the bot does not
/// know itself, the notice is one of its own and not the general one.
pub fn notice(error: CommandError) -> (res: &'static str)
    ensures
        res@ == notice_text(error),
        error is UnknownBotUser ==> res@ != failure_text(),
{
    proof {
        reveal_strlit("I am not ready yet, please try again shortly!");
        reveal_strlit("An error occoured while processing your command!");
    }
    match error {
        CommandError::UnknownBotUser => {
            let res = "I am not ready yet, please try again shortly!";
            assert(res@[0] != failure_text()[0]);
            res
        },
        CommandError::MissingPrompt => failure_notice(),
        CommandError::MissingMessage => failure_notice(),
    }
}

/// How the work on an invocation of a registered command ended.
#[derive(Clone, Copy, Debug, PartialEq, Eq, Structural)]
pub enum CommandOutcome {
    /// All was done and sent.
    Done,
    /// The command itself gave up.
    Failed(CommandError),
    /// The model or the platform failed.
    FailedOutside,
}

/// What closes the work on an invocation, as contracts see it: nothing
/// after a success, a notice to the user after any failure.
pub open spec fn closing_text(outcome: CommandOutcome) -> Option<Seq<char>> {
    match outcome {
        CommandOutcome::Done => None,
        CommandOutcome::Failed(error) => Some(notice_text(error)),
        CommandOutcome::FailedOutside => Some(failure_text()),
    }
}

/// The notice that closes the work on an invocation, if one is due. No
/// failure leaves the user without an answer.
pub fn closing_notice(outcome: CommandOutcome) -> (res: Option<&'static str>)
    ensures
        match res {
            Some(text) => closing_text(outcome) == Some(text@),
            None => closing_text(outcome) is None,
        },
{
    match outcome {
        CommandOutcome::Done => None,
        CommandOutcome::Failed(error) => Some(notice(error)),
        CommandOutcome::FailedOutside => Some(failure_notice()),
    }
}

/// Whether `text` reads `name`.
pub fn is_named(text: &String, name: &str) -> (b: bool)
    ensures
        b == (text@ == name@),
{
    let other = String::from_str(name);
    *text == other
}

} // verus!
