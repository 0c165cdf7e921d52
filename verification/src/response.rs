//! What the timer answers and reports, and what it tells about the timer's
//! state.

use vstd::prelude::*;

verus! {

/// The state that a timer is in.
#[derive(Copy, Clone, Debug, PartialEq, Eq, Structural)]
pub enum TimerState {
    /// The timer is not running.
    NotRunning,
    /// The timer is running.
    Running,
    /// The timer started but got paused.
    Paused,
    /// The timer has ended, but did not get reset yet.
    Ended,
}

/// A message from the timer: the answer to a command, or an event.
#[derive(Debug)]
pub enum CommandResult {
    /// A command was carried out.
    Success(Response),
    /// A command was refused.
    Error(CommandError),
    /// Something happened to the timer.
    Event(Event),
}

/// The answer to a command that was carried out.
#[derive(Debug)]
pub enum Response {
    /// There is nothing to tell.
    Nothing,
    /// A text.
    String(String),
    /// The state of the timer.
    State(State),
}

/// The state of the timer, with the index of the current split of an attempt
/// in progress.
#[derive(Debug)]
pub enum State {
    /// There is no attempt.
    NotRunning,
    /// An attempt is running.
    Running(usize),
    /// An attempt is paused.
    Paused(usize),
    /// An attempt is finished.
    Ended,
}

/// Why a command was refused.
#[derive(Debug)]
pub enum CommandError {
    /// The command was not understood.
    InvalidCommand {
        /// What was wrong with it.
        message: String,
    },
    /// An index was out of range.
    InvalidIndex,
    /// The timer could not carry out the command.
    Timer {
        /// The reason that the timer gave.
        code: EventError,
    },
}

/// Why the timer could not carry out a command.
#[derive(Copy, Clone, Debug, PartialEq, Eq, Structural)]
pub enum EventError {
    /// The operation is not supported.
    Unsupported,
    /// The timer is busy.
    Busy,
    /// A run is already in progress.
    RunAlreadyInProgress,
    /// There is no run in progress.
    NoRunInProgress,
    /// The run is finished already.
    RunFinished,
    /// The time is negative.
    NegativeTime,
    /// The last split can not be skipped.
    CantSkipLastSplit,
    /// There is no split to undo.
    CantUndoFirstSplit,
    /// The timer is paused already.
    AlreadyPaused,
    /// The timer is not paused.
    NotPaused,
    /// The comparison does not exist.
    ComparisonDoesntExist,
    /// The game time is initialized already.
    GameTimeAlreadyInitialized,
    /// The game time is paused already.
    GameTimeAlreadyPaused,
    /// The game time is not paused.
    GameTimeNotPaused,
    /// The time could not be parsed.
    CouldNotParseTime,
    /// The timer is paused.
    TimerPaused,
    /// The runner decided against the reset.
    RunnerDecidedAgainstReset,
    /// Any other reason.
    Unknown,
}

/// Something that happened to the timer.
#[derive(Copy, Clone, Debug, PartialEq, Eq, Structural)]
pub enum Event {
    /// A run was started.
    Started,
    /// A segment was finished.
    Splitted,
    /// The last segment was finished.
    Finished,
    /// The run was reset.
    Reset,
    /// A split was undone.
    SplitUndone,
    /// A split was skipped.
    SplitSkipped,
    /// The run was paused.
    Paused,
    /// The run was resumed.
    Resumed,
    /// The pauses were undone.
    PausesUndone,
    /// The pauses were undone, and the run was resumed.
    PausesUndoneAndResumed,
    /// Another comparison was chosen.
    ComparisonChanged,
    /// Another timing method was chosen.
    TimingMethodChanged,
    /// The game time was initialized.
    GameTimeInitialized,
    /// The game time was set.
    GameTimeSet,
    /// The game time was paused.
    GameTimePaused,
    /// The game time was resumed.
    GameTimeResumed,
    /// The loading times were set.
    LoadingTimesSet,
    /// A custom variable was set.
    CustomVariableSet,
    /// Anything else.
    Unknown,
}

impl State {
    /// The state of the timer without the index of the split.
    pub open spec fn timer_state_spec(self) -> TimerState {
        match self {
            State::NotRunning => TimerState::NotRunning,
            State::Running(_) => TimerState::Running,
            State::Paused(_) => TimerState::Paused,
            State::Ended => TimerState::Ended,
        }
    }

    /// The state of the timer without the index of the split.
    pub fn timer_state(&self) -> (state: TimerState)
        ensures
            state == self.timer_state_spec(),
    {
        match self {
            State::NotRunning => TimerState::NotRunning,
            State::Running(_) => TimerState::Running,
            State::Paused(_) => TimerState::Paused,
            State::Ended => TimerState::Ended,
        }
    }
}

impl Event {
    /// The state that the timer is in after the event, if the event tells.
    ///
    /// Only starting, pausing, resuming, finishing and resetting tell. Undoing
    /// the pauses does not, even when it resumes the run.
    pub open spec fn timer_state_spec(self) -> Option<TimerState> {
        if self == Event::Started || self == Event::Resumed {
            Some(TimerState::Running)
        } else if self == Event::Paused {
            Some(TimerState::Paused)
        } else if self == Event::Finished {
            Some(TimerState::Ended)
        } else if self == Event::Reset {
            Some(TimerState::NotRunning)
        } else {
            None
        }
    }

    /// The state that the timer is in after the event, if the event tells.
    pub fn timer_state(self) -> (state: Option<TimerState>)
        ensures
            state == self.timer_state_spec(),
    {
        match self {
            Event::Started => Some(TimerState::Running),
            Event::Paused => Some(TimerState::Paused),
            Event::Resumed => Some(TimerState::Running),
            Event::Finished => Some(TimerState::Ended),
            Event::Reset => Some(TimerState::NotRunning),
            _ => None,
        }
    }
}

impl CommandResult {
    /// The state of the timer that the message reports, if it reports one: an
    /// answer that carries the state, or an event that tells it.
    pub open spec fn reported(self) -> Option<TimerState> {
        match self {
            CommandResult::Success(Response::State(state)) => Some(state.timer_state_spec()),
            CommandResult::Event(event) => event.timer_state_spec(),
            _ => None,
        }
    }

    /// The state of the timer that the message reports, if it reports one.
    pub fn timer_state(&self) -> (state: Option<TimerState>)
        ensures
            state == self.reported(),
    {
        match self {
            CommandResult::Success(Response::State(state)) => Some(state.timer_state()),
            CommandResult::Event(event) => event.timer_state(),
            CommandResult::Success(_) | CommandResult::Error(_) => None,
        }
    }
}

/// What a message means for the state of the timer. A started or resumed run
/// is running, a paused one is paused, a finished one has ended, and after a
/// reset there is none. An answer with the state means that state. Nothing else
/// means anything for it.
pub proof fn law_meaning_of_messages(message: CommandResult)
    ensures
        message.reported() == Some(TimerState::Running) <==> {
            ||| message == CommandResult::Event(Event::Started)
            ||| message == CommandResult::Event(Event::Resumed)
            ||| message matches CommandResult::Success(Response::State(State::Running(_)))
        },
        message.reported() == Some(TimerState::Paused) <==> {
            ||| message == CommandResult::Event(Event::Paused)
            ||| message matches CommandResult::Success(Response::State(State::Paused(_)))
        },
        message.reported() == Some(TimerState::Ended) <==> {
            ||| message == CommandResult::Event(Event::Finished)
            ||| message == CommandResult::Success(Response::State(State::Ended))
        },
        message.reported() == Some(TimerState::NotRunning) <==> {
            ||| message == CommandResult::Event(Event::Reset)
            ||| message == CommandResult::Success(Response::State(State::NotRunning))
        },
{
}

/// What an event means for the state of the timer.
pub proof fn law_meaning_of_events(event: Event)
    ensures
        event.timer_state_spec() == Some(TimerState::Running) <==> event == Event::Started
            || event == Event::Resumed,
        event.timer_state_spec() == Some(TimerState::Paused) <==> event == Event::Paused,
        event.timer_state_spec() == Some(TimerState::Ended) <==> event == Event::Finished,
        event.timer_state_spec() == Some(TimerState::NotRunning) <==> event == Event::Reset,
{
}

/// The index of a split does not matter for the state of the timer, and the
/// four states are told apart.
pub proof fn law_states_keep_their_meaning(state: State)
    ensures
        state.timer_state_spec() == TimerState::NotRunning <==> state is NotRunning,
        state.timer_state_spec() == TimerState::Running <==> state is Running,
        state.timer_state_spec() == TimerState::Paused <==> state is Paused,
        state.timer_state_spec() == TimerState::Ended <==> state is Ended,
{
}

} // verus!
