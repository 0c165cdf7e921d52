//! The timer that the auto splitter controls.
//!
//! Each call of the auto splitter becomes a command for the websocket thread.
//! When a command can not be handed over, the connection is dead.

use vstd::prelude::*;

use crate::command::{GameTime, WsCommand};
use crate::response::TimerState;
use crate::shared::{SharedState, SharedStateView};

verus! {

/// How severe the runtime deems a message.
#[derive(Copy, Clone, Debug, PartialEq, Eq, Structural)]
pub enum RuntimeLogLevel {
    /// Of use for tracing the runtime only.
    Trace,
    /// Of use for debugging.
    Debug,
    /// Of interest to the user.
    Info,
    /// Something is off.
    Warning,
    /// Something failed.
    Error,
}

/// The level under which a message is logged.
#[derive(Copy, Clone, Debug, PartialEq, Eq, Structural)]
pub enum Level {
    /// Errors.
    Error,
    /// Warnings.
    Warn,
    /// Information.
    Info,
    /// Debugging.
    Debug,
    /// Tracing.
    Trace,
}

/// The timer that the auto splitter controls.
pub struct WebsocketTimer;

impl WebsocketTimer {
    /// The state that the auto splitter sees the timer in.
    pub fn state(shared: &SharedState) -> (state: TimerState)
        ensures
            state == shared@.state,
    {
        shared.state()
    }

    /// Takes note of whether a command was handed to the websocket thread.
    pub fn sent(shared: &mut SharedState, delivered: bool)
        ensures
            final(shared)@ == delivery(old(shared)@, delivered),
    {
        if !delivered {
            shared.deadge();
        }
    }

    /// The command that starts the timer.
    pub fn start() -> (command: WsCommand)
        ensures
            command == WsCommand::Start,
    {
        WsCommand::Start
    }

    /// The command that finishes the current segment.
    pub fn split() -> (command: WsCommand)
        ensures
            command == WsCommand::Split,
    {
        WsCommand::Split
    }

    /// The command that skips the current segment.
    pub fn skip_split() -> (command: WsCommand)
        ensures
            command == WsCommand::SkipSplit,
    {
        WsCommand::SkipSplit
    }

    /// The command that goes back to the previous segment.
    pub fn undo_split() -> (command: WsCommand)
        ensures
            command == WsCommand::UndoSplit,
    {
        WsCommand::UndoSplit
    }

    /// The command that resets the timer.
    pub fn reset() -> (command: WsCommand)
        ensures
            command == WsCommand::Reset,
    {
        WsCommand::Reset
    }

    /// The command that sets the game time.
    pub fn set_game_time(time: GameTime) -> (command: WsCommand)
        ensures
            command == WsCommand::SetGameTime(time),
    {
        WsCommand::SetGameTime(time)
    }

    /// The command that pauses the game time.
    pub fn pause_game_time() -> (command: WsCommand)
        ensures
            command == WsCommand::PauseGameTime,
    {
        WsCommand::PauseGameTime
    }

    /// The command that resumes the game time.
    pub fn resume_game_time() -> (command: WsCommand)
        ensures
            command == WsCommand::ResumeGameTime,
    {
        WsCommand::ResumeGameTime
    }

    /// The command that sets a custom variable.
    pub fn set_variable(key: &str, value: &str) -> (command: WsCommand)
        ensures
            command matches WsCommand::SetCustomVariable(k, v) && k@ == key@ && v@ == value@,
    {
        WsCommand::SetCustomVariable(key.to_owned(), value.to_owned())
    }

    /// The level under which a message of the runtime is logged.
    pub fn log_runtime(log_level: RuntimeLogLevel) -> (level: Level)
        ensures
            level == runtime_level(log_level),
    {
        match log_level {
            RuntimeLogLevel::Trace => Level::Trace,
            RuntimeLogLevel::Debug => Level::Debug,
            RuntimeLogLevel::Info => Level::Info,
            RuntimeLogLevel::Warning => Level::Warn,
            RuntimeLogLevel::Error => Level::Error,
        }
    }
}

/// The level that bears the name of the severity.
pub open spec fn runtime_level(log_level: RuntimeLogLevel) -> Level {
    match log_level {
        RuntimeLogLevel::Trace => Level::Trace,
        RuntimeLogLevel::Debug => Level::Debug,
        RuntimeLogLevel::Info => Level::Info,
        RuntimeLogLevel::Warning => Level::Warn,
        RuntimeLogLevel::Error => Level::Error,
    }
}

/// The shared state after a command was handed over, or could not be.
pub open spec fn delivery(shared: SharedStateView, delivered: bool) -> SharedStateView {
    SharedStateView { alive: shared.alive && delivered, ..shared }
}

/// The shared state after a sequence of deliveries.
pub open spec fn deliveries(shared: SharedStateView, delivered: Seq<bool>) -> SharedStateView
    decreases delivered.len(),
{
    if delivered.len() == 0 {
        shared
    } else {
        delivery(deliveries(shared, delivered.drop_last()), delivered.last())
    }
}

/// A connection is alive as long as every command was handed over, and never
/// again after one was not. The known state of the timer is not touched.
pub proof fn law_alive_until_first_failure(shared: SharedStateView, delivered: Seq<bool>)
    ensures
        deliveries(shared, delivered).alive <==> shared.alive && !delivered.contains(false),
        deliveries(shared, delivered).state == shared.state,
    decreases delivered.len(),
{
    if delivered.len() > 0 {
        let before = delivered.drop_last();
        law_alive_until_first_failure(shared, before);
        assert(delivered[delivered.len() - 1] == delivered.last());
        if before.contains(false) {
            let i = choose|i: int| 0 <= i < before.len() && before[i] == false;
            assert(delivered[i] == false);
        }
        if delivered.contains(false) && delivered.last() {
            let i = choose|i: int| 0 <= i < delivered.len() && delivered[i] == false;
            assert(before[i] == false);
        }
    }
}

/// A message of the runtime is logged under the level of its own severity.
pub proof fn law_severity_is_kept(log_level: RuntimeLogLevel)
    ensures
        runtime_level(log_level) == Level::Trace <==> log_level == RuntimeLogLevel::Trace,
        runtime_level(log_level) == Level::Debug <==> log_level == RuntimeLogLevel::Debug,
        runtime_level(log_level) == Level::Info <==> log_level == RuntimeLogLevel::Info,
        runtime_level(log_level) == Level::Warn <==> log_level == RuntimeLogLevel::Warning,
        runtime_level(log_level) == Level::Error <==> log_level == RuntimeLogLevel::Error,
{
}

/// One delivery: if it fails the connection is dead, if not it is as alive as
/// before. The known state of the timer is not touched either way.
pub proof fn law_one_delivery(shared: SharedStateView)
    ensures
        delivery(shared, true) == shared,
        !delivery(shared, false).alive,
        delivery(shared, false).state == shared.state,
{
}

} // verus!
