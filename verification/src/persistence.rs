//! When the registry is written to the state file and what is made of the
//! file at startup. Reading and writing the file is left to the caller.

use vstd::prelude::*;
use crate::context::serde::MakaiContextSerde;
use crate::context::{ContextView, MakaiContext};

verus! {

/// The seconds between two timed saves.
pub const SAVE_INTERVAL_SECS: u64 = 300;

/// What was found where the state file should be.
#[derive(Debug)]
pub enum StateFile {
    /// No file: the bot has not saved anything yet.
    Absent,
    /// A file that could not be read.
    Unreadable,
    /// A file whose content is not an image of a registry.
    Unparsable,
    /// A file with this image.
    Image(MakaiContextSerde),
}

/// Why the bot cannot start from the state file. Both are for the operator
/// to mend: the bot does not go on without the memory that the file holds.
#[derive(Clone, Copy, Debug, PartialEq, Eq, Structural)]
pub enum StateError {
    Unreadable,
    Unparsable,
}

/// The registry to start with: an empty one where there is no state file,
/// else the one that the file holds, and none where the file is there but
/// cannot be used.
pub fn load_state(file: StateFile) -> (res: Result<MakaiContext, StateError>)
    ensures
        match file {
            StateFile::Absent => res is Ok && res->Ok_0@ == (ContextView {
                channels: Map::empty(),
                bot_user: None,
            }),
            StateFile::Unreadable => res == Err::<MakaiContext, StateError>(StateError::Unreadable),
            StateFile::Unparsable => res == Err::<MakaiContext, StateError>(StateError::Unparsable),
            StateFile::Image(data) => res is Ok && res->Ok_0@ == data@,
        },
{
    match file {
        StateFile::Absent => Ok(MakaiContext::new()),
        StateFile::Unreadable => Err(StateError::Unreadable),
        StateFile::Unparsable => Err(StateError::Unparsable),
        StateFile::Image(data) => Ok(MakaiContext::restore(data)),
    }
}

/// The image to write to the state file. A failed write is not fatal: the
/// next save writes the whole registry again.
pub fn save_state(state: &MakaiContext) -> (res: MakaiContextSerde)
    ensures
        res@ == state@,
{
    state.snapshot()
}

/// What the saving task waits for.
#[derive(Clone, Copy, Debug, PartialEq, Eq, Structural)]
pub enum SaveEvent {
    /// The save interval has passed.
    Tick,
    /// The operator has asked the bot to stop.
    ShutdownRequested,
}

/// What the saving task does on an event. It does one thing at a time, so no
/// two saves run at once.
#[derive(Clone, Copy, Debug, PartialEq, Eq, Structural)]
pub enum SaveAction {
    /// Write the registry to the state file.
    Save,
    /// Write the registry to the state file, then close the connections to
    /// the platform and tell whoever asked that the bot may exit.
    SaveThenShutDown,
}

/// The saving task's memory: whether it has shut the bot down already.
#[derive(Clone, Copy, Debug, PartialEq, Eq, Structural)]
pub struct AutoSave {
    pub shut_down: bool,
}

impl AutoSave {
    /// What the task does on `event`, and what it remembers afterwards.
    pub open spec fn spec_step(self, event: SaveEvent) -> (AutoSave, SaveAction) {
        match event {
            SaveEvent::Tick => (self, SaveAction::Save),
            SaveEvent::ShutdownRequested => if self.shut_down {
                (self, SaveAction::Save)
            } else {
                (AutoSave { shut_down: true }, SaveAction::SaveThenShutDown)
            },
        }
    }

    /// What the task does, one after the other, on `events`.
    pub open spec fn spec_run(self, events: Seq<SaveEvent>) -> Seq<SaveAction>
        decreases events.len(),
    {
        if events.len() == 0 {
            Seq::empty()
        } else {
            seq![self.spec_step(events[0]).1] + self.spec_step(events[0]).0.spec_run(
                events.drop_first(),
            )
        }
    }

    /// The task at startup.
    pub fn new() -> (res: Self)
        ensures
            res == (AutoSave { shut_down: false }),
    {
        AutoSave { shut_down: false }
    }

    /// Whether the registry is still to be saved when the connection to the
    /// platform has ended: it is, unless the shutdown has saved it already,
    /// so that a shutdown brings one final save and no second one.
    pub fn save_on_exit(&self) -> (b: bool)
        ensures
            b == !self.shut_down,
    {
        !self.shut_down
    }

    /// Takes `event` and says what to do: a save on every event, and with
    /// the first request to stop, the shutdown after it.
    pub fn on_event(&mut self, event: SaveEvent) -> (action: SaveAction)
        ensures
            (*final(self), action) == old(self).spec_step(event),
    {
        match event {
            SaveEvent::Tick => SaveAction::Save,
            SaveEvent::ShutdownRequested => {
                if self.shut_down {
                    SaveAction::Save
                } else {
                    self.shut_down = true;
                    SaveAction::SaveThenShutDown
                }
            },
        }
    }
}

/// How often `action` occurs in `actions`.
pub open spec fn count(actions: Seq<SaveAction>, action: SaveAction) -> nat
    decreases actions.len(),
{
    if actions.len() == 0 {
        0
    } else {
        count(actions.drop_first(), action) + if actions[0] == action {
            1nat
        } else {
            0nat
        }
    }
}

/// Whatever events come, every one of them brings a save, and the bot is
/// shut down once if a request to stop is among them, and never else.
pub proof fn lemma_one_final_save(task: AutoSave, events: Seq<SaveEvent>)
    ensures
        task.spec_run(events).len() == events.len(),
        count(task.spec_run(events), SaveAction::SaveThenShutDown) == if !task.shut_down
            && events.contains(SaveEvent::ShutdownRequested) {
            1nat
        } else {
            0nat
        },
    decreases events.len(),
{
    if events.len() > 0 {
        let (next, action) = task.spec_step(events[0]);
        let rest = events.drop_first();
        lemma_one_final_save(next, rest);
        assert(task.spec_run(events).drop_first() =~= next.spec_run(rest));
        assert(events.contains(SaveEvent::ShutdownRequested) <==> events[0]
            == SaveEvent::ShutdownRequested || rest.contains(SaveEvent::ShutdownRequested)) by {
            if rest.contains(SaveEvent::ShutdownRequested) {
                let i = choose|i: int| 0 <= i < rest.len() && rest[i] == SaveEvent::ShutdownRequested;
                assert(events[i + 1] == SaveEvent::ShutdownRequested);
            }
            if events.contains(SaveEvent::ShutdownRequested) && events[0]
                != SaveEvent::ShutdownRequested {
                let i = choose|i: int|
                    0 <= i < events.len() && events[i] == SaveEvent::ShutdownRequested;
                assert(rest[i - 1] == SaveEvent::ShutdownRequested);
            }
        }
    }
}

/// What the handler of the operator's interrupt does.
#[derive(Clone, Copy, Debug, PartialEq, Eq, Structural)]
pub enum InterruptAction {
    /// Ask the saving task to stop the bot, and wait until it has.
    RequestShutdown,
    /// Say that the bot is stopping already.
    Warn,
}

/// The handler's memory: whether an interrupt has come before.
#[derive(Clone, Copy, Debug, PartialEq, Eq, Structural)]
pub struct InterruptHandler {
    pub interrupted: bool,
}

impl InterruptHandler {
    /// The handler at startup.
    pub fn new() -> (res: Self)
        ensures
            res == (InterruptHandler { interrupted: false }),
    {
        InterruptHandler { interrupted: false }
    }

    /// Takes an interrupt: the first asks for the shutdown, each later one
    /// only warns.
    pub fn on_interrupt(&mut self) -> (action: InterruptAction)
        ensures
            final(self).interrupted,
            action == if old(self).interrupted {
                InterruptAction::Warn
            } else {
                InterruptAction::RequestShutdown
            },
    {
        if self.interrupted {
            InterruptAction::Warn
        } else {
            self.interrupted = true;
            InterruptAction::RequestShutdown
        }
    }
}

} // verus!
