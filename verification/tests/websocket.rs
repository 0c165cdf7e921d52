use asr_lso_bridge::websocket::{Message, ReadResult, Reading, WsAction, WsEvent};
use asr_lso_bridge::{
    CommandResult, Event, Response, SharedState, State, TimerState, WsCommand, WsThread,
};

const NOTHING_YET: ReadResult = ReadResult::IoError { would_block: true };

fn text(content: &str) -> ReadResult {
    ReadResult::Message(Message::Text(content.to_owned()))
}

/// A step with an event that the thread waits for.
fn step(thread: &mut WsThread, shared: &mut SharedState, event: WsEvent) -> WsAction {
    assert!(thread.accepts(&event));
    thread.step(shared, event)
}

/// A thread that waits for commands.
fn waiting() -> (WsThread, SharedState) {
    let mut shared = SharedState::new(TimerState::NotRunning);
    let (mut thread, _) = WsThread::new();
    step(&mut thread, &mut shared, WsEvent::Sent { delivered: true });
    let action = step(&mut thread, &mut shared, WsEvent::Read(NOTHING_YET));
    assert!(matches!(action, WsAction::Receive));
    (thread, shared)
}

/// A thread that reads.
fn reading() -> (WsThread, SharedState) {
    let (mut thread, mut shared) = waiting();
    let action = step(&mut thread, &mut shared, WsEvent::Timeout);
    assert!(matches!(action, WsAction::Read));
    (thread, shared)
}

#[test]
fn reads_are_sorted() {
    assert!(matches!(WsThread::read(text("{}")), Reading::Parse(t) if t == "{}"));
    let bytes = ReadResult::Message(Message::Binary("\u{e9}t\u{e9}".as_bytes().to_vec()));
    assert!(matches!(WsThread::read(bytes), Reading::Parse(t) if t == "\u{e9}t\u{e9}"));
    let ping = ReadResult::Message(Message::Ping(vec![1, 2, 3]));
    assert!(matches!(WsThread::read(ping), Reading::Answer(p) if p == vec![1, 2, 3]));
    assert!(matches!(WsThread::read(NOTHING_YET), Reading::Continue));
    let ends = [
        ReadResult::Message(Message::Pong(vec![1])),
        ReadResult::Message(Message::Close),
        ReadResult::Message(Message::Frame),
        ReadResult::IoError { would_block: false },
        ReadResult::OtherError,
    ];
    for end in ends {
        assert!(matches!(WsThread::read(end), Reading::Break));
    }
}

#[test]
fn a_thread_first_asks_for_the_state() {
    let mut shared = SharedState::new(TimerState::NotRunning);
    let (mut thread, action) = WsThread::new();
    assert!(matches!(action, WsAction::Send(t) if t == "{\"command\":\"getCurrentState\"}"));
    let action = step(&mut thread, &mut shared, WsEvent::Sent { delivered: true });
    assert!(matches!(action, WsAction::Read));
    let action = step(&mut thread, &mut shared, WsEvent::Read(text("reply")));
    assert!(matches!(action, WsAction::Parse(t) if t == "reply"));
    let reply = CommandResult::Success(Response::State(State::Running(2)));
    let action = step(&mut thread, &mut shared, WsEvent::Parsed(Some(reply)));
    assert!(matches!(action, WsAction::Receive));
    assert_eq!(shared.state(), TimerState::Running);
}

#[test]
fn the_first_exchange_does_not_end_the_thread() {
    let ends = [
        ReadResult::Message(Message::Close),
        ReadResult::Message(Message::Pong(Vec::new())),
        ReadResult::IoError { would_block: false },
        ReadResult::OtherError,
    ];
    for end in ends {
        let mut shared = SharedState::new(TimerState::NotRunning);
        let (mut thread, _) = WsThread::new();
        step(&mut thread, &mut shared, WsEvent::Sent { delivered: false });
        let action = step(&mut thread, &mut shared, WsEvent::Read(end));
        assert!(matches!(action, WsAction::Receive));
        assert!(thread.accepts(&WsEvent::Timeout));
    }
}

#[test]
fn commands_are_sent_and_followed_by_a_read() {
    let (mut thread, mut shared) = waiting();
    let commands = [
        (WsCommand::Start, "{\"command\":\"start\"}"),
        (WsCommand::Split, "{\"command\":\"split\"}"),
        (WsCommand::Reset, "{\"command\":\"reset\"}"),
    ];
    for (command, expected) in commands {
        let action = step(&mut thread, &mut shared, WsEvent::Command(command));
        assert!(matches!(action, WsAction::Send(t) if t == expected));
        let action = step(&mut thread, &mut shared, WsEvent::Sent { delivered: true });
        assert!(matches!(action, WsAction::Read));
        let action = step(&mut thread, &mut shared, WsEvent::Read(NOTHING_YET));
        assert!(matches!(action, WsAction::Receive));
    }
}

#[test]
fn a_message_that_can_not_be_sent_does_not_end_the_thread() {
    let (mut thread, mut shared) = waiting();
    step(&mut thread, &mut shared, WsEvent::Command(WsCommand::Start));
    let action = step(&mut thread, &mut shared, WsEvent::Sent { delivered: false });
    assert!(matches!(action, WsAction::Read));
}

#[test]
fn pings_are_answered() {
    let (mut thread, mut shared) = reading();
    let ping = ReadResult::Message(Message::Ping(vec![7, 8]));
    let action = step(&mut thread, &mut shared, WsEvent::Read(ping));
    assert!(matches!(action, WsAction::Pong(p) if p == vec![7, 8]));
    let action = step(&mut thread, &mut shared, WsEvent::Sent { delivered: false });
    assert!(matches!(action, WsAction::Receive));
}

#[test]
fn what_can_not_be_read_ends_the_thread() {
    let ends = [
        ReadResult::Message(Message::Close),
        ReadResult::Message(Message::Pong(Vec::new())),
        ReadResult::Message(Message::Frame),
        ReadResult::IoError { would_block: false },
        ReadResult::OtherError,
    ];
    for end in ends {
        let (mut thread, mut shared) = reading();
        let action = step(&mut thread, &mut shared, WsEvent::Read(end));
        assert!(matches!(action, WsAction::Stop));
        assert!(!thread.accepts(&WsEvent::Timeout));
        assert!(!thread.accepts(&WsEvent::Disconnected));
    }
}

#[test]
fn a_thread_without_commands_ends() {
    let (mut thread, mut shared) = waiting();
    let action = step(&mut thread, &mut shared, WsEvent::Disconnected);
    assert!(matches!(action, WsAction::Stop));
    assert!(!thread.accepts(&WsEvent::Command(WsCommand::Start)));
}

#[test]
fn the_last_report_counts() {
    let (mut thread, mut shared) = waiting();
    let reports = [
        (Some(CommandResult::Event(Event::Started)), TimerState::Running),
        (Some(CommandResult::Event(Event::Splitted)), TimerState::Running),
        (None, TimerState::Running),
        (Some(CommandResult::Event(Event::Paused)), TimerState::Paused),
        (Some(CommandResult::Event(Event::PausesUndoneAndResumed)), TimerState::Paused),
        (Some(CommandResult::Success(Response::State(State::Ended))), TimerState::Ended),
        (Some(CommandResult::Event(Event::Reset)), TimerState::NotRunning),
    ];
    for (report, expected) in reports {
        step(&mut thread, &mut shared, WsEvent::Timeout);
        step(&mut thread, &mut shared, WsEvent::Read(text("report")));
        let action = step(&mut thread, &mut shared, WsEvent::Parsed(report));
        assert!(matches!(action, WsAction::Receive));
        assert_eq!(shared.state(), expected);
        assert!(shared.alive());
    }
}

#[test]
fn events_have_their_time() {
    let (thread, _) = waiting();
    assert!(thread.accepts(&WsEvent::Command(WsCommand::Split)));
    assert!(thread.accepts(&WsEvent::Timeout));
    assert!(thread.accepts(&WsEvent::Disconnected));
    assert!(!thread.accepts(&WsEvent::Sent { delivered: true }));
    assert!(!thread.accepts(&WsEvent::Read(NOTHING_YET)));
    assert!(!thread.accepts(&WsEvent::Parsed(None)));
    let (thread, _) = reading();
    assert!(thread.accepts(&WsEvent::Read(NOTHING_YET)));
    assert!(!thread.accepts(&WsEvent::Timeout));
    assert!(!thread.accepts(&WsEvent::Sent { delivered: true }));
}

#[test]
fn bytes_that_are_no_text_are_not_accepted() {
    let (thread, _) = reading();
    let invalid = ReadResult::Message(Message::Binary(vec![0x7b, 0xff, 0x7d]));
    assert!(!thread.accepts(&WsEvent::Read(invalid)));
    let valid = ReadResult::Message(Message::Binary(vec![0x7b, 0xc3, 0xa9, 0x7d]));
    assert!(thread.accepts(&WsEvent::Read(valid)));
}

#[test]
fn messages_are_applied_to_the_shared_state() {
    let mut shared = SharedState::new(TimerState::NotRunning);
    WsThread::apply(&Some(CommandResult::Event(Event::Started)), &mut shared);
    assert_eq!(shared.state(), TimerState::Running);
    WsThread::apply(&None, &mut shared);
    assert_eq!(shared.state(), TimerState::Running);
    WsThread::apply(&Some(CommandResult::Event(Event::Unknown)), &mut shared);
    assert_eq!(shared.state(), TimerState::Running);
}
