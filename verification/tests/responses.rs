use asr_lso_bridge::timer::{Level, RuntimeLogLevel};
use asr_lso_bridge::{
    CommandError, CommandResult, Event, EventError, Response, SharedState, State, TimerState,
    WebsocketTimer,
};

#[test]
fn states_are_reported() {
    let cases = [
        (State::NotRunning, TimerState::NotRunning),
        (State::Running(3), TimerState::Running),
        (State::Paused(0), TimerState::Paused),
        (State::Ended, TimerState::Ended),
    ];
    for (state, expected) in cases {
        assert_eq!(state.timer_state(), expected);
        let result = CommandResult::Success(Response::State(state));
        assert_eq!(result.timer_state(), Some(expected));
    }
}

#[test]
fn five_events_report_a_state() {
    let telling = [
        (Event::Started, TimerState::Running),
        (Event::Paused, TimerState::Paused),
        (Event::Resumed, TimerState::Running),
        (Event::Finished, TimerState::Ended),
        (Event::Reset, TimerState::NotRunning),
    ];
    for (event, expected) in telling {
        assert_eq!(CommandResult::Event(event).timer_state(), Some(expected));
    }
    let silent = [
        Event::Splitted,
        Event::SplitUndone,
        Event::SplitSkipped,
        Event::PausesUndone,
        Event::PausesUndoneAndResumed,
        Event::ComparisonChanged,
        Event::TimingMethodChanged,
        Event::GameTimeInitialized,
        Event::GameTimeSet,
        Event::GameTimePaused,
        Event::GameTimeResumed,
        Event::LoadingTimesSet,
        Event::CustomVariableSet,
        Event::Unknown,
    ];
    for event in silent {
        assert_eq!(CommandResult::Event(event).timer_state(), None);
    }
}

#[test]
fn other_answers_report_nothing() {
    assert_eq!(CommandResult::Success(Response::Nothing).timer_state(), None);
    assert_eq!(CommandResult::Success(Response::String("Running".to_owned())).timer_state(), None);
    let errors = [
        CommandError::InvalidCommand { message: "what".to_owned() },
        CommandError::InvalidIndex,
        CommandError::Timer { code: EventError::NoRunInProgress },
    ];
    for error in errors {
        assert_eq!(CommandResult::Error(error).timer_state(), None);
    }
}

#[test]
fn events_and_errors_are_numbered() {
    assert_eq!(Event::Started as u8, 0);
    assert_eq!(Event::Resumed as u8, 7);
    assert_eq!(Event::CustomVariableSet as u8, 17);
    assert_eq!(EventError::Unsupported as u8, 0);
    assert_eq!(EventError::NotPaused as u8, 9);
    assert_eq!(EventError::RunnerDecidedAgainstReset as u8, 16);
}

#[test]
fn a_connection_is_alive_until_a_delivery_fails() {
    let mut shared = SharedState::new(TimerState::Paused);
    assert!(shared.alive());
    WebsocketTimer::sent(&mut shared, true);
    assert!(shared.alive());
    WebsocketTimer::sent(&mut shared, false);
    assert!(!shared.alive());
    WebsocketTimer::sent(&mut shared, true);
    assert!(!shared.alive());
    assert_eq!(WebsocketTimer::state(&shared), TimerState::Paused);
    shared.set_state(TimerState::Ended);
    assert_eq!(shared.state(), TimerState::Ended);
    assert!(!shared.alive());
}

#[test]
fn deadge_ends_a_connection() {
    let mut shared = SharedState::new(TimerState::Running);
    shared.deadge();
    assert!(!shared.alive());
    assert_eq!(shared.state(), TimerState::Running);
}

#[test]
fn runtime_messages_keep_their_severity() {
    assert_eq!(WebsocketTimer::log_runtime(RuntimeLogLevel::Trace), Level::Trace);
    assert_eq!(WebsocketTimer::log_runtime(RuntimeLogLevel::Debug), Level::Debug);
    assert_eq!(WebsocketTimer::log_runtime(RuntimeLogLevel::Info), Level::Info);
    assert_eq!(WebsocketTimer::log_runtime(RuntimeLogLevel::Warning), Level::Warn);
    assert_eq!(WebsocketTimer::log_runtime(RuntimeLogLevel::Error), Level::Error);
}
