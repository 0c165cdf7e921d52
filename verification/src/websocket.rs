//! The thread that serves one websocket.
//!
//! The thread alternates between taking commands from the auto splitter and
//! reading what the timer sends. [`WsThread`] decides what is done next; the
//! caller does it and hands back what came of it.
//!
//! Right after a connection is made, the thread asks for the state of the
//! timer and reads once. Whatever comes of that, it goes on to wait for
//! commands. From then on it stops when the auto splitter is gone, or when the
//! websocket can not be read any more.

use vstd::prelude::*;
use vstd::utf8::*;

use crate::command::WsCommand;
use crate::response::{CommandResult, Event, Response, TimerState};
use crate::shared::{SharedState, SharedStateView};

verus! {

/// How long the thread waits for a command before it reads, in milliseconds.
pub const COMMAND_TIMEOUT_MILLIS: u64 = 10;

/// The error of `core::str::from_utf8`.
#[verifier::external_type_specification]
#[verifier::external_body]
pub struct ExUtf8Error(core::str::Utf8Error);

/// `core::str::from_utf8` succeeds exactly on the bytes that are UTF-8, and
/// gives the string that they encode.
pub assume_specification[ core::str::from_utf8 ](v: &[u8]) -> (text: Result<
    &str,
    core::str::Utf8Error,
>)
    ensures
        text is Ok <==> valid_utf8(v@),
        text matches Ok(s) ==> encode_utf8(s@) == v@,
;

/// A message that the websocket delivers.
#[derive(Debug)]
pub enum Message {
    /// A text.
    Text(String),
    /// Bytes.
    Binary(Vec<u8>),
    /// A ping with its payload.
    Ping(Vec<u8>),
    /// A pong with its payload.
    Pong(Vec<u8>),
    /// The other side closes the connection.
    Close,
    /// A raw frame.
    Frame,
}

/// What came of an attempt to read the websocket.
#[derive(Debug)]
pub enum ReadResult {
    /// A message was read.
    Message(Message),
    /// Reading failed with an I/O error.
    IoError {
        /// Nothing has arrived yet: reading would have blocked.
        would_block: bool,
    },
    /// Reading failed for another reason.
    OtherError,
}

impl ReadResult {
    /// Bytes are only read if they are a text.
    pub open spec fn is_readable(self) -> bool {
        self matches ReadResult::Message(Message::Binary(bytes)) ==> valid_utf8(bytes@)
    }
}

/// What to do about a read.
#[derive(Debug)]
pub enum Reading {
    /// Nothing: go on.
    Continue,
    /// Stop serving the websocket.
    Break,
    /// Send a pong with the payload, then go on.
    Answer(Vec<u8>),
    /// Parse the text as a message of the timer.
    Parse(String),
}

/// What a [`Reading`] says.
pub enum ReadingView {
    /// Nothing: go on.
    Continue,
    /// Stop serving the websocket.
    Break,
    /// Send a pong with the payload, then go on.
    Answer(Seq<u8>),
    /// Parse the text as a message of the timer.
    Parse(Seq<char>),
}

impl View for Reading {
    type V = ReadingView;

    open spec fn view(&self) -> ReadingView {
        match self {
            Reading::Continue => ReadingView::Continue,
            Reading::Break => ReadingView::Break,
            Reading::Answer(payload) => ReadingView::Answer(payload@),
            Reading::Parse(text) => ReadingView::Parse(text@),
        }
    }
}

/// What to do about a read: texts, and bytes that are texts, are parsed, pings
/// are answered with their payload, and if there is nothing to read yet that is
/// fine. Everything else ends the service.
pub open spec fn reading(result: ReadResult) -> ReadingView {
    match result {
        ReadResult::Message(Message::Text(text)) => ReadingView::Parse(text@),
        ReadResult::Message(Message::Binary(bytes)) => ReadingView::Parse(decode_utf8(bytes@)),
        ReadResult::Message(Message::Ping(payload)) => ReadingView::Answer(payload@),
        ReadResult::IoError { would_block: true } => ReadingView::Continue,
        _ => ReadingView::Break,
    }
}

/// A step of an exchange with the timer that is under way.
#[derive(Copy, Clone, Debug, PartialEq, Eq, Structural)]
pub enum Exchange {
    /// A command is being sent.
    Sending,
    /// The websocket is being read.
    Reading,
    /// A ping is being answered.
    Answering,
    /// A message is being parsed.
    Parsing,
}

/// Where the thread is.
#[derive(Copy, Clone, Debug, PartialEq, Eq, Structural)]
pub enum WsPhase {
    /// In the first exchange, which asks for the state of the timer.
    Greeting(Exchange),
    /// Waiting for a command.
    Waiting,
    /// In an exchange.
    Exchanging(Exchange),
    /// The thread is done.
    Stopped,
}

/// What came of what the thread asked for.
#[derive(Debug)]
pub enum WsEvent {
    /// A command arrived.
    Command(WsCommand),
    /// No command arrived in time.
    Timeout,
    /// No command will arrive any more.
    Disconnected,
    /// A message was sent, or could not be.
    Sent {
        /// The message was sent.
        delivered: bool,
    },
    /// The websocket was read.
    Read(ReadResult),
    /// A text was parsed; there is nothing if it is no message of the timer.
    Parsed(Option<CommandResult>),
}

/// What the thread asks for.
#[derive(Debug)]
pub enum WsAction {
    /// Wait for a command.
    Receive,
    /// Send a text message.
    Send(String),
    /// Read the websocket.
    Read,
    /// Send a pong with the payload.
    Pong(Vec<u8>),
    /// Parse a text as a message of the timer.
    Parse(String),
    /// End the thread.
    Stop,
}

/// What a [`WsAction`] says.
pub enum WsActionView {
    /// Wait for a command.
    Receive,
    /// Send a text message.
    Send(Seq<char>),
    /// Read the websocket.
    Read,
    /// Send a pong with the payload.
    Pong(Seq<u8>),
    /// Parse a text as a message of the timer.
    Parse(Seq<char>),
    /// End the thread.
    Stop,
}

impl View for WsAction {
    type V = WsActionView;

    open spec fn view(&self) -> WsActionView {
        match self {
            WsAction::Receive => WsActionView::Receive,
            WsAction::Send(text) => WsActionView::Send(text@),
            WsAction::Read => WsActionView::Read,
            WsAction::Pong(payload) => WsActionView::Pong(payload@),
            WsAction::Parse(text) => WsActionView::Parse(text@),
            WsAction::Stop => WsActionView::Stop,
        }
    }
}

/// Whether an event is what the step of an exchange waits for.
pub open spec fn exchange_accepts(exchange: Exchange, event: WsEvent) -> bool {
    match exchange {
        Exchange::Sending | Exchange::Answering => event is Sent,
        Exchange::Reading => event matches WsEvent::Read(result) && result.is_readable(),
        Exchange::Parsing => event is Parsed,
    }
}

/// Whether an event is what the thread waits for.
pub open spec fn phase_accepts(phase: WsPhase, event: WsEvent) -> bool {
    match phase {
        WsPhase::Waiting => event is Command || event is Timeout || event is Disconnected,
        WsPhase::Greeting(exchange) | WsPhase::Exchanging(exchange) => exchange_accepts(
            exchange,
            event,
        ),
        WsPhase::Stopped => false,
    }
}

/// How an exchange goes on after an event.
pub enum ExchangeStep {
    /// With another step, for which something is asked for.
    Next(Exchange, WsActionView),
    /// It is over, and the thread goes on.
    Continue,
    /// It is over, and so is the thread.
    Break,
}

/// How an exchange goes on: after the command is sent, or could not be, the
/// websocket is read once. A ping is answered and a text is parsed, and then
/// the exchange is over.
pub open spec fn exchange_step(exchange: Exchange, event: WsEvent) -> ExchangeStep {
    match (exchange, event) {
        (Exchange::Sending, _) => ExchangeStep::Next(Exchange::Reading, WsActionView::Read),
        (Exchange::Reading, WsEvent::Read(result)) => match reading(result) {
            ReadingView::Continue => ExchangeStep::Continue,
            ReadingView::Break => ExchangeStep::Break,
            ReadingView::Answer(payload) => ExchangeStep::Next(
                Exchange::Answering,
                WsActionView::Pong(payload),
            ),
            ReadingView::Parse(text) => ExchangeStep::Next(
                Exchange::Parsing,
                WsActionView::Parse(text),
            ),
        },
        _ => ExchangeStep::Continue,
    }
}

/// Where the thread is after an event, and what it asks for then.
pub open spec fn phase_step(phase: WsPhase, event: WsEvent) -> (WsPhase, WsActionView) {
    match phase {
        WsPhase::Waiting => match event {
            WsEvent::Command(command) => (
                WsPhase::Exchanging(Exchange::Sending),
                WsActionView::Send(command.wire()),
            ),
            WsEvent::Timeout => (WsPhase::Exchanging(Exchange::Reading), WsActionView::Read),
            _ => (WsPhase::Stopped, WsActionView::Stop),
        },
        WsPhase::Greeting(exchange) => match exchange_step(exchange, event) {
            ExchangeStep::Next(next, action) => (WsPhase::Greeting(next), action),
            ExchangeStep::Continue | ExchangeStep::Break => (
                WsPhase::Waiting,
                WsActionView::Receive,
            ),
        },
        WsPhase::Exchanging(exchange) => match exchange_step(exchange, event) {
            ExchangeStep::Next(next, action) => (WsPhase::Exchanging(next), action),
            ExchangeStep::Continue => (WsPhase::Waiting, WsActionView::Receive),
            ExchangeStep::Break => (WsPhase::Stopped, WsActionView::Stop),
        },
        WsPhase::Stopped => (WsPhase::Stopped, WsActionView::Stop),
    }
}

/// The state of the timer that an event reports, if it reports one.
pub open spec fn event_report(event: WsEvent) -> Option<TimerState> {
    match event {
        WsEvent::Parsed(Some(result)) => result.reported(),
        _ => None,
    }
}

/// The shared state after an event: a reported state of the timer is recorded,
/// and nothing else changes.
pub open spec fn shared_step(shared: SharedStateView, event: WsEvent) -> SharedStateView {
    match event_report(event) {
        Some(state) => SharedStateView { state, ..shared },
        None => shared,
    }
}

/// The thread that serves one websocket.
#[derive(Debug)]
pub struct WsThread {
    phase: WsPhase,
}

impl View for WsThread {
    type V = WsPhase;

    closed spec fn view(&self) -> WsPhase {
        self.phase
    }
}

impl WsThread {
    /// A thread for a new connection. It first asks for the state of the timer.
    pub fn new() -> (started: (WsThread, WsAction))
        ensures
            started.0@ == WsPhase::Greeting(Exchange::Sending),
            started.1@ == WsActionView::Send(WsCommand::GetCurrentState.wire()),
    {
        let thread = WsThread { phase: WsPhase::Greeting(Exchange::Sending) };
        (thread, WsAction::Send(Self::handle(&WsCommand::GetCurrentState)))
    }

    /// What to do about a read of the websocket.
    pub fn read(result: ReadResult) -> (todo: Reading)
        requires
            result.is_readable(),
        ensures
            todo@ == reading(result),
            result matches ReadResult::Message(Message::Text(text)) ==> (todo matches Reading::Parse(
                given,
            ) && given@ == text@),
            result matches ReadResult::Message(Message::Binary(bytes)) ==> (
            todo matches Reading::Parse(given) && encode_utf8(given@) == bytes@),
            result matches ReadResult::Message(Message::Ping(payload)) ==> (
            todo matches Reading::Answer(given) && given@ == payload@),
    {
        match result {
            ReadResult::Message(Message::Text(text)) => Reading::Parse(text),
            ReadResult::Message(Message::Binary(bytes)) => {
                match core::str::from_utf8(bytes.as_slice()) {
                    Ok(text) => {
                        proof {
                            encode_utf8_decode_utf8(text@);
                        }
                        Reading::Parse(text.to_owned())
                    },
                    // Ruled out: the bytes are UTF-8.
                    Err(_) => Reading::Break,
                }
            },
            ReadResult::Message(Message::Ping(payload)) => Reading::Answer(payload),
            ReadResult::Message(_) => Reading::Break,
            ReadResult::IoError { would_block } => if would_block {
                Reading::Continue
            } else {
                Reading::Break
            },
            ReadResult::OtherError => Reading::Break,
        }
    }

    /// Records the state of the timer that a message reports, if it could be
    /// parsed and reports one.
    pub fn apply(result: &Option<CommandResult>, shared: &mut SharedState)
        ensures
            final(shared)@ == (match *result {
                Some(message) => match message.reported() {
                    Some(state) => SharedStateView { state, ..old(shared)@ },
                    None => old(shared)@,
                },
                None => old(shared)@,
            }),
    {
        if let Some(message) = result {
            if let Some(state) = message.timer_state() {
                shared.set_state(state);
            }
        }
    }

    /// Whether an event is what the thread waits for. Bytes that are not UTF-8
    /// never are.
    pub fn accepts(&self, event: &WsEvent) -> (accepted: bool)
        ensures
            accepted == phase_accepts(self@, *event),
    {
        match self.phase {
            WsPhase::Waiting => match event {
                WsEvent::Command(_) | WsEvent::Timeout | WsEvent::Disconnected => true,
                _ => false,
            },
            WsPhase::Greeting(exchange) | WsPhase::Exchanging(exchange) => match event {
                WsEvent::Sent { .. } => match exchange {
                    Exchange::Sending | Exchange::Answering => true,
                    _ => false,
                },
                WsEvent::Read(ReadResult::Message(Message::Binary(bytes))) => {
                    exchange == Exchange::Reading && core::str::from_utf8(
                        bytes.as_slice(),
                    ).is_ok()
                },
                WsEvent::Read(_) => exchange == Exchange::Reading,
                WsEvent::Parsed(_) => exchange == Exchange::Parsing,
                _ => false,
            },
            WsPhase::Stopped => false,
        }
    }

    /// Takes in what came of the last action, records the state of the timer
    /// if the event reports one, and says what to do next.
    pub fn step(&mut self, shared: &mut SharedState, event: WsEvent) -> (action: WsAction)
        requires
            phase_accepts(old(self)@, event),
        ensures
            (final(self)@, action@) == phase_step(old(self)@, event),
            final(shared)@ == shared_step(old(shared)@, event),
            event matches WsEvent::Command(command) ==> (action matches WsAction::Send(text) && text@
                == command.wire()),
            event matches WsEvent::Read(ReadResult::Message(Message::Text(text))) ==> (
            action matches WsAction::Parse(given) && given@ == text@),
            event matches WsEvent::Read(ReadResult::Message(Message::Ping(payload))) ==> (
            action matches WsAction::Pong(given) && given@ == payload@),
    {
        let greeting = match self.phase {
            WsPhase::Greeting(_) => true,
            _ => false,
        };
        match event {
            WsEvent::Command(command) => {
                let message = Self::handle(&command);
                self.phase = WsPhase::Exchanging(Exchange::Sending);
                WsAction::Send(message)
            },
            WsEvent::Timeout => {
                self.phase = WsPhase::Exchanging(Exchange::Reading);
                WsAction::Read
            },
            WsEvent::Disconnected => {
                self.phase = WsPhase::Stopped;
                WsAction::Stop
            },
            WsEvent::Sent { .. } => {
                match self.phase {
                    WsPhase::Greeting(Exchange::Sending) | WsPhase::Exchanging(
                        Exchange::Sending,
                    ) => {
                        self.enter(greeting, Exchange::Reading);
                        WsAction::Read
                    },
                    _ => {
                        self.phase = WsPhase::Waiting;
                        WsAction::Receive
                    },
                }
            },
            WsEvent::Read(result) => {
                match Self::read(result) {
                    Reading::Continue => {
                        self.phase = WsPhase::Waiting;
                        WsAction::Receive
                    },
                    Reading::Break => if greeting {
                        self.phase = WsPhase::Waiting;
                        WsAction::Receive
                    } else {
                        self.phase = WsPhase::Stopped;
                        WsAction::Stop
                    },
                    Reading::Answer(payload) => {
                        self.enter(greeting, Exchange::Answering);
                        WsAction::Pong(payload)
                    },
                    Reading::Parse(text) => {
                        self.enter(greeting, Exchange::Parsing);
                        WsAction::Parse(text)
                    },
                }
            },
            WsEvent::Parsed(result) => {
                Self::apply(&result, shared);
                self.phase = WsPhase::Waiting;
                WsAction::Receive
            },
        }
    }

    /// Goes on to a step of the exchange that is under way.
    fn enter(&mut self, greeting: bool, exchange: Exchange)
        ensures
            final(self)@ == (if greeting {
                WsPhase::Greeting(exchange)
            } else {
                WsPhase::Exchanging(exchange)
            }),
    {
        self.phase = if greeting {
            WsPhase::Greeting(exchange)
        } else {
            WsPhase::Exchanging(exchange)
        };
    }
}

/// What is read is acted on for what it is. The whole of a text is handed on
/// for parsing, and of bytes the text whose UTF-8 encoding they are. A ping is
/// answered with its whole payload. Only when there is nothing to read yet is
/// nothing done. Everything else ends the service.
pub proof fn law_what_is_read_is_acted_on(result: ReadResult)
    requires
        result matches ReadResult::Message(Message::Binary(bytes)) ==> valid_utf8(bytes@),
    ensures
        result matches ReadResult::Message(Message::Text(text)) ==> reading(result)
            == ReadingView::Parse(text@),
        result matches ReadResult::Message(Message::Binary(bytes)) ==> reading(result) is Parse
            && encode_utf8(reading(result)->Parse_0) == bytes@,
        result matches ReadResult::Message(Message::Ping(payload)) ==> reading(result)
            == ReadingView::Answer(payload@),
        reading(result) == ReadingView::Continue <==> result == (ReadResult::IoError {
            would_block: true,
        }),
        reading(result) == ReadingView::Break <==> match result {
            ReadResult::Message(message) => message is Pong || message is Close
                || message is Frame,
            ReadResult::IoError { would_block } => !would_block,
            ReadResult::OtherError => true,
        },
{
    if let ReadResult::Message(Message::Binary(bytes)) = result {
        decode_utf8_encode_utf8(bytes@);
    }
}

/// Only bytes that are not UTF-8 can not be read.
pub proof fn law_what_can_be_read(result: ReadResult)
    ensures
        !result.is_readable() <==> (result matches ReadResult::Message(Message::Binary(bytes))
            && !valid_utf8(bytes@)),
{
}

/// Each action is what the phase that it leads to is about: the thread asks for
/// a command when it waits for one, for a read when it waits for what was read,
/// and so on. What it asks for is therefore what it takes in next.
pub proof fn law_actions_fit_the_phase(phase: WsPhase, event: WsEvent)
    requires
        phase_accepts(phase, event),
    ensures
        ({
            let (next, action) = phase_step(phase, event);
            &&& next == WsPhase::Waiting <==> action == WsActionView::Receive
            &&& next == WsPhase::Stopped <==> action == WsActionView::Stop
            &&& next == WsPhase::Greeting(Exchange::Sending) || next == WsPhase::Exchanging(
                Exchange::Sending,
            ) <==> action is Send
            &&& next == WsPhase::Greeting(Exchange::Reading) || next == WsPhase::Exchanging(
                Exchange::Reading,
            ) <==> action == WsActionView::Read
            &&& next == WsPhase::Greeting(Exchange::Answering) || next == WsPhase::Exchanging(
                Exchange::Answering,
            ) <==> action is Pong
            &&& next == WsPhase::Greeting(Exchange::Parsing) || next == WsPhase::Exchanging(
                Exchange::Parsing,
            ) <==> action is Parse
            &&& next is Greeting ==> phase is Greeting
        }),
{
}

/// A thread that waits takes in every command, the lack of one, and the end of
/// all commands. It sends every command, reads if there is none, and ends if
/// there will be none.
pub proof fn law_waiting(event: WsEvent)
    ensures
        phase_accepts(WsPhase::Waiting, event) <==> event is Command || event is Timeout
            || event is Disconnected,
        event matches WsEvent::Command(command) ==> phase_step(WsPhase::Waiting, event) == (
            WsPhase::Exchanging(Exchange::Sending),
            WsActionView::Send(command.wire()),
        ),
        event is Timeout ==> phase_step(WsPhase::Waiting, event) == (
            WsPhase::Exchanging(Exchange::Reading),
            WsActionView::Read,
        ),
        event is Disconnected ==> phase_step(WsPhase::Waiting, event) == (
            WsPhase::Stopped,
            WsActionView::Stop,
        ),
{
}

/// In an exchange, sending is followed by reading whether the message could be
/// sent or not. After a pong, and after parsing, the thread waits again,
/// whatever came of it. The first exchange is no different.
pub proof fn law_exchanging(event: WsEvent)
    ensures
        phase_accepts(WsPhase::Exchanging(Exchange::Sending), event) <==> event is Sent,
        phase_accepts(WsPhase::Exchanging(Exchange::Answering), event) <==> event is Sent,
        phase_accepts(WsPhase::Exchanging(Exchange::Parsing), event) <==> event is Parsed,
        phase_accepts(WsPhase::Greeting(Exchange::Sending), event) <==> event is Sent,
        phase_accepts(WsPhase::Greeting(Exchange::Answering), event) <==> event is Sent,
        phase_accepts(WsPhase::Greeting(Exchange::Parsing), event) <==> event is Parsed,
        event is Sent ==> {
            &&& phase_step(WsPhase::Exchanging(Exchange::Sending), event) == (
                WsPhase::Exchanging(Exchange::Reading),
                WsActionView::Read,
            )
            &&& phase_step(WsPhase::Greeting(Exchange::Sending), event) == (
                WsPhase::Greeting(Exchange::Reading),
                WsActionView::Read,
            )
            &&& phase_step(WsPhase::Exchanging(Exchange::Answering), event) == (
                WsPhase::Waiting,
                WsActionView::Receive,
            )
            &&& phase_step(WsPhase::Greeting(Exchange::Answering), event) == (
                WsPhase::Waiting,
                WsActionView::Receive,
            )
        },
        event is Parsed ==> {
            &&& phase_step(WsPhase::Exchanging(Exchange::Parsing), event) == (
                WsPhase::Waiting,
                WsActionView::Receive,
            )
            &&& phase_step(WsPhase::Greeting(Exchange::Parsing), event) == (
                WsPhase::Waiting,
                WsActionView::Receive,
            )
        },
{
}

/// A thread that reads takes in every read but that of bytes that are not
/// UTF-8. It parses every text whole, answers every ping with its payload,
/// waits again if nothing was there, and otherwise ends, but for the first
/// exchange, after which it waits in any case.
pub proof fn law_reading(result: ReadResult, greeting: bool)
    requires
        result matches ReadResult::Message(Message::Binary(bytes)) ==> valid_utf8(bytes@),
    ensures
        ({
            let phase = if greeting {
                WsPhase::Greeting(Exchange::Reading)
            } else {
                WsPhase::Exchanging(Exchange::Reading)
            };
            let (next, action) = phase_step(phase, WsEvent::Read(result));
            let stays = if greeting {
                next is Greeting
            } else {
                next is Exchanging
            };
            &&& phase_accepts(phase, WsEvent::Read(result))
            &&& match result {
                ReadResult::Message(Message::Text(text)) => stays && action
                    == WsActionView::Parse(text@),
                ReadResult::Message(Message::Binary(bytes)) => stays && action is Parse
                    && encode_utf8(action->Parse_0) == bytes@,
                ReadResult::Message(Message::Ping(payload)) => stays && action
                    == WsActionView::Pong(payload@),
                ReadResult::IoError { would_block: true } => next == WsPhase::Waiting,
                _ => if greeting {
                    next == WsPhase::Waiting
                } else {
                    next == WsPhase::Stopped
                },
            }
        }),
{
    law_what_is_read_is_acted_on(result);
}

/// Where a read is waited for, nothing but a read is taken in, and no bytes
/// that are not UTF-8. A thread that has ended takes in nothing.
pub proof fn law_nothing_else_is_taken_in(event: WsEvent)
    ensures
        !(event is Read) ==> !phase_accepts(WsPhase::Exchanging(Exchange::Reading), event)
            && !phase_accepts(WsPhase::Greeting(Exchange::Reading), event),
        event matches WsEvent::Read(ReadResult::Message(Message::Binary(bytes))) ==> !valid_utf8(
            bytes@,
        ) ==> forall|phase: WsPhase| !phase_accepts(phase, event),
        !phase_accepts(WsPhase::Stopped, event),
{
}

/// After a message of the timer the recorded state is what the message means:
/// a started or resumed run is running, a paused one is paused, a finished one
/// has ended, a reset leaves none, and an answer with the state gives that
/// state. Everything else leaves the recorded state alone, and nothing that the
/// thread takes in changes whether the connection is alive.
pub proof fn law_recorded_state(shared: SharedStateView, event: WsEvent)
    ensures
        shared_step(shared, event).alive == shared.alive,
        match event {
            WsEvent::Parsed(Some(CommandResult::Event(happened))) => {
                &&& happened == Event::Started || happened == Event::Resumed ==> shared_step(
                    shared,
                    event,
                ).state == TimerState::Running
                &&& happened == Event::Paused ==> shared_step(shared, event).state
                    == TimerState::Paused
                &&& happened == Event::Finished ==> shared_step(shared, event).state
                    == TimerState::Ended
                &&& happened == Event::Reset ==> shared_step(shared, event).state
                    == TimerState::NotRunning
                &&& happened != Event::Started && happened != Event::Resumed && happened
                    != Event::Paused && happened != Event::Finished && happened != Event::Reset
                    ==> shared_step(shared, event).state == shared.state
            },
            WsEvent::Parsed(Some(CommandResult::Success(Response::State(state)))) => {
                &&& state is NotRunning ==> shared_step(shared, event).state
                    == TimerState::NotRunning
                &&& state is Running ==> shared_step(shared, event).state == TimerState::Running
                &&& state is Paused ==> shared_step(shared, event).state == TimerState::Paused
                &&& state is Ended ==> shared_step(shared, event).state == TimerState::Ended
            },
            _ => shared_step(shared, event).state == shared.state,
        },
{
}

/// An event reports a state exactly if it is a message that means one.
pub proof fn law_reports_are_messages(event: WsEvent)
    ensures
        event_report(event) is Some <==> match event {
            WsEvent::Parsed(Some(CommandResult::Event(happened))) => happened == Event::Started
                || happened == Event::Resumed || happened == Event::Paused || happened
                == Event::Finished || happened == Event::Reset,
            WsEvent::Parsed(Some(CommandResult::Success(Response::State(_)))) => true,
            _ => false,
        },
        forall|shared: SharedStateView|
            event_report(event) is Some ==> Some((#[trigger] shared_step(shared, event)).state)
                == event_report(event),
{
}

/// What is said of readings and actions says all of them: kind and contents.
pub proof fn law_views_keep_the_contents(todo: Reading, action: WsAction)
    ensures
        todo is Continue <==> todo@ == ReadingView::Continue,
        todo is Break <==> todo@ == ReadingView::Break,
        todo matches Reading::Answer(payload) ==> todo@ == ReadingView::Answer(payload@),
        todo matches Reading::Parse(text) ==> todo@ == ReadingView::Parse(text@),
        action is Receive <==> action@ == WsActionView::Receive,
        action is Read <==> action@ == WsActionView::Read,
        action is Stop <==> action@ == WsActionView::Stop,
        action matches WsAction::Send(text) ==> action@ == WsActionView::Send(text@),
        action matches WsAction::Pong(payload) ==> action@ == WsActionView::Pong(payload@),
        action matches WsAction::Parse(text) ==> action@ == WsActionView::Parse(text@),
{
}

/// A thread waits a hundredth of a second for a command.
pub proof fn law_command_timeout()
    ensures
        COMMAND_TIMEOUT_MILLIS * 100 == 1_000,
{
}

} // verus!
