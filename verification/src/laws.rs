//! What holds of calls, whatever they are made for.
//!
//! Each law takes the arguments and the results of one or more calls, and says
//! how they belong together.

use vstd::prelude::*;
use vstd::utf8::*;

use crate::command::{GameTime, WsCommand};
use crate::decimal;
use crate::response::{CommandResult, Event, Response, State, TimerState};
use crate::settings::{
    SettingValue, SettingValueView, SettingsError, SettingsMap, TomlValue, TomlValueView,
};
use crate::shared::SharedState;
use crate::splitter::{
    SetupAction, SetupError, SetupEvent, SetupPhase, SplitterSetup,
    SplitterThread, TickAction, TickEvent, TickPhase,
};
use crate::timer::{Level, RuntimeLogLevel, WebsocketTimer};
use crate::websocket::{
    Exchange, Message, ReadResult, Reading, WsAction, WsEvent, WsPhase, WsThread,
};

verus! {

/// The text that is appended for a number reads back as the number, and what
/// was there before is still there.
pub proof fn law_appended_number_reads_back(out: &mut String, value: i64)
    requires
        call_ensures(decimal::append_i64, (out, value), ()),
    ensures
        old(out)@.is_prefix_of(final(out)@),
        decimal::numeral_value(final(out)@.skip(old(out)@.len() as int)) == value,
{
    decimal::law_int_text_reads_back(value as int);
    assert(final(out)@.skip(old(out)@.len() as int) =~= decimal::int_text(value as int));
}

/// A game time can be had of every number of nanoseconds whose seconds fit 64
/// bits, and of no other. Its whole seconds are the nanoseconds without a
/// fraction of a second.
pub proof fn law_game_time_keeps_its_seconds(
    nanoseconds: i128,
    made: Option<GameTime>,
    time: GameTime,
    seconds: i64,
)
    requires
        call_ensures(GameTime::from_nanoseconds, (nanoseconds,), made),
        call_ensures(GameTime::whole_seconds, (&time,), seconds),
        made is Some ==> made == Some(time),
    ensures
        made is Some <==> -9_223_372_036_854_775_809 * 1_000_000_000 < nanoseconds
            < 9_223_372_036_854_775_808 * 1_000_000_000,
        made is Some && nanoseconds >= 0 ==> seconds * 1_000_000_000 <= nanoseconds < (seconds + 1)
            * 1_000_000_000,
        made is Some && nanoseconds <= 0 ==> (seconds - 1) * 1_000_000_000 < nanoseconds <= seconds
            * 1_000_000_000,
{
    crate::command::law_range_of_game_times(nanoseconds as int);
    crate::command::law_whole_seconds_drop_the_fraction(nanoseconds as int);
}

/// What the auto splitter sets the game time to arrives at the timer as a
/// numeral of whole seconds.
pub proof fn law_game_time_arrives_in_seconds(time: GameTime, command: WsCommand, message: String)
    requires
        call_ensures(WebsocketTimer::set_game_time, (time,), command),
        call_ensures(WsThread::handle, (&command,), message),
    ensures
        ({
            let start = "{\"command\":\"setGameTime\",\"time\":\""@;
            let end = "\"}"@;
            let numeral = message@.subrange(start.len() as int, message@.len() - end.len());
            let seconds = decimal::numeral_value(numeral);
            &&& message@ == start + numeral + end
            &&& time.nanos() >= 0 ==> seconds * 1_000_000_000 <= time.nanos() < (seconds + 1)
                * 1_000_000_000
            &&& time.nanos() <= 0 ==> (seconds - 1) * 1_000_000_000 < time.nanos() <= seconds
                * 1_000_000_000
        }),
{
    crate::command::law_game_time_is_sent_in_seconds(time);
}

/// The message that sets a game time is the one for its command, and so is the
/// message that sets a custom variable.
pub proof fn law_commands_have_one_message(
    time: GameTime,
    time_message: String,
    key: &str,
    value: &str,
    variable: WsCommand,
    variable_message: String,
)
    requires
        call_ensures(WsThread::set_game_time, (time,), time_message),
        call_ensures(WebsocketTimer::set_variable, (key, value), variable),
        call_ensures(WsThread::set_custom_variable, (key, value), variable_message),
    ensures
        time_message@ == WsCommand::SetGameTime(time).wire(),
        variable_message@ == variable.wire(),
{
}

/// What the auto splitter sets a variable to arrives at the timer whole: the
/// key and the value stand in the message as they were given.
pub proof fn law_variable_arrives_whole(
    key: &str,
    value: &str,
    command: WsCommand,
    message: String,
)
    requires
        call_ensures(WebsocketTimer::set_variable, (key, value), command),
        call_ensures(WsThread::handle, (&command,), message),
    ensures
        message@ == "{\"command\":\"setCustomVariable\",\"key\":\""@ + key@ + "\",\"value\":\""@
            + value@ + "\"}"@,
{
    assert(message@ =~= "{\"command\":\"setCustomVariable\",\"key\":\""@ + key@
        + "\",\"value\":\""@ + value@ + "\"}"@);
}

/// A call of the auto splitter arrives at the timer under the name of what was
/// called.
pub proof fn law_calls_arrive_by_name(command: WsCommand, message: String)
    requires
        call_ensures(WsThread::handle, (&command,), message),
    ensures
        call_ensures(WebsocketTimer::start, (), command) ==> message@
            == "{\"command\":\"start\"}"@,
        call_ensures(WebsocketTimer::split, (), command) ==> message@
            == "{\"command\":\"split\"}"@,
        call_ensures(WebsocketTimer::skip_split, (), command) ==> message@
            == "{\"command\":\"skipSplit\"}"@,
        call_ensures(WebsocketTimer::undo_split, (), command) ==> message@
            == "{\"command\":\"undoSplit\"}"@,
        call_ensures(WebsocketTimer::reset, (), command) ==> message@
            == "{\"command\":\"reset\"}"@,
        call_ensures(WebsocketTimer::pause_game_time, (), command) ==> message@
            == "{\"command\":\"pauseGameTime\"}"@,
        call_ensures(WebsocketTimer::resume_game_time, (), command) ==> message@
            == "{\"command\":\"resumeGameTime\"}"@,
        command == WsCommand::GetCurrentState ==> message@ == "{\"command\":\"getCurrentState\"}"@,
{
}

/// A message of the runtime keeps its severity.
pub proof fn law_messages_keep_their_severity(log_level: RuntimeLogLevel, level: Level)
    requires
        call_ensures(WebsocketTimer::log_runtime, (log_level,), level),
    ensures
        level == Level::Trace <==> log_level == RuntimeLogLevel::Trace,
        level == Level::Debug <==> log_level == RuntimeLogLevel::Debug,
        level == Level::Info <==> log_level == RuntimeLogLevel::Info,
        level == Level::Warn <==> log_level == RuntimeLogLevel::Warning,
        level == Level::Error <==> log_level == RuntimeLogLevel::Error,
{
}

/// A new connection is alive, and in the state that was given.
pub proof fn law_new_connection_is_alive(
    given: TimerState,
    shared: SharedState,
    state: TimerState,
    seen: TimerState,
    alive: bool,
)
    requires
        call_ensures(SharedState::new, (given,), shared),
        call_ensures(SharedState::state, (&shared,), state),
        call_ensures(WebsocketTimer::state, (&shared,), seen),
        call_ensures(SharedState::alive, (&shared,), alive),
    ensures
        state == given,
        seen == given,
        alive,
{
}

/// A state that is recorded is read back, by the auto splitter too, and whether
/// the connection is alive does not depend on it.
pub proof fn law_recorded_state_is_read_back(
    shared: &mut SharedState,
    recorded: TimerState,
    before: SharedState,
    after: SharedState,
    state: TimerState,
    seen: TimerState,
    alive_before: bool,
    alive_after: bool,
)
    requires
        call_ensures(SharedState::set_state, (shared, recorded), ()),
        before == *old(shared),
        after == *final(shared),
        call_ensures(SharedState::state, (&after,), state),
        call_ensures(WebsocketTimer::state, (&after,), seen),
        call_ensures(SharedState::alive, (&before,), alive_before),
        call_ensures(SharedState::alive, (&after,), alive_after),
    ensures
        state == recorded,
        seen == recorded,
        alive_after == alive_before,
{
}

/// After a command could not be handed over the connection is dead. A command
/// that could be does not change that, and neither changes the state.
pub proof fn law_delivery_decides_on_life(
    shared: &mut SharedState,
    delivered: bool,
    before: SharedState,
    after: SharedState,
    alive_before: bool,
    alive_after: bool,
    state_before: TimerState,
    state_after: TimerState,
)
    requires
        call_ensures(WebsocketTimer::sent, (shared, delivered), ()),
        before == *old(shared),
        after == *final(shared),
        call_ensures(SharedState::alive, (&before,), alive_before),
        call_ensures(SharedState::alive, (&after,), alive_after),
        call_ensures(SharedState::state, (&before,), state_before),
        call_ensures(SharedState::state, (&after,), state_after),
    ensures
        alive_after <==> alive_before && delivered,
        state_after == state_before,
{
}

/// A connection that is given up is dead, and its state stays.
pub proof fn law_given_up_connection_is_dead(
    shared: &mut SharedState,
    before: SharedState,
    after: SharedState,
    alive: bool,
    state_before: TimerState,
    state_after: TimerState,
)
    requires
        call_ensures(SharedState::deadge, (shared,), ()),
        before == *old(shared),
        after == *final(shared),
        call_ensures(SharedState::alive, (&after,), alive),
        call_ensures(SharedState::state, (&before,), state_before),
        call_ensures(SharedState::state, (&after,), state_after),
    ensures
        !alive,
        state_after == state_before,
{
}

/// What a message means for the state of the timer.
pub proof fn law_messages_mean_a_state(message: CommandResult, reported: Option<TimerState>)
    requires
        call_ensures(CommandResult::timer_state, (&message,), reported),
    ensures
        match message {
            CommandResult::Event(Event::Started) => reported == Some(TimerState::Running),
            CommandResult::Event(Event::Resumed) => reported == Some(TimerState::Running),
            CommandResult::Event(Event::Paused) => reported == Some(TimerState::Paused),
            CommandResult::Event(Event::Finished) => reported == Some(TimerState::Ended),
            CommandResult::Event(Event::Reset) => reported == Some(TimerState::NotRunning),
            CommandResult::Success(Response::State(State::NotRunning)) => reported == Some(
                TimerState::NotRunning,
            ),
            CommandResult::Success(Response::State(State::Running(_))) => reported == Some(
                TimerState::Running,
            ),
            CommandResult::Success(Response::State(State::Paused(_))) => reported == Some(
                TimerState::Paused,
            ),
            CommandResult::Success(Response::State(State::Ended)) => reported == Some(
                TimerState::Ended,
            ),
            _ => reported is None,
        },
{
}

/// The state in an answer, and the event in a message, mean what the message
/// means.
pub proof fn law_parts_mean_what_the_message_means(
    state: State,
    of_state: TimerState,
    event: Event,
    of_event: Option<TimerState>,
    answer: Option<TimerState>,
    notice: Option<TimerState>,
)
    requires
        call_ensures(State::timer_state, (&state,), of_state),
        call_ensures(Event::timer_state, (event,), of_event),
        call_ensures(
            CommandResult::timer_state,
            (&CommandResult::Success(Response::State(state)),),
            answer,
        ),
        call_ensures(CommandResult::timer_state, (&CommandResult::Event(event),), notice),
    ensures
        answer == Some(of_state),
        notice == of_event,
{
}

/// What is read is acted on whole: texts are parsed, bytes are parsed as the
/// text that they encode, and pings are answered with their payload.
pub proof fn law_reads_are_acted_on_whole(result: ReadResult, todo: Reading)
    requires
        result matches ReadResult::Message(Message::Binary(bytes)) ==> valid_utf8(bytes@),
        call_ensures(WsThread::read, (result,), todo),
    ensures
        match result {
            ReadResult::Message(Message::Text(text)) => todo matches Reading::Parse(given)
                && given@ == text@,
            ReadResult::Message(Message::Binary(bytes)) => todo matches Reading::Parse(given)
                && encode_utf8(given@) == bytes@,
            ReadResult::Message(Message::Ping(payload)) => todo matches Reading::Answer(given)
                && given@ == payload@,
            ReadResult::IoError { would_block: true } => todo is Continue,
            _ => todo is Break,
        },
{
    crate::websocket::law_what_is_read_is_acted_on(result);
}

/// Everything that a websocket can deliver can be read, but for bytes that are
/// not UTF-8.
pub proof fn law_all_but_broken_texts_can_be_read(result: ReadResult)
    requires
        result matches ReadResult::Message(Message::Binary(bytes)) ==> valid_utf8(bytes@),
    ensures
        call_requires(WsThread::read, (result,)),
{
}

/// A thread starts by asking the timer for its state.
pub proof fn law_thread_starts_with_a_question(started: (WsThread, WsAction))
    requires
        call_ensures(WsThread::new, (), started),
    ensures
        started.0@ == WsPhase::Greeting(Exchange::Sending),
        started.1 matches WsAction::Send(text) && text@ == "{\"command\":\"getCurrentState\"}"@,
{
}

/// Each event that a thread takes in is answered as it should be, wherever the
/// thread is: a command is sent whole, a text is parsed whole, a ping is
/// answered whole. What is sent is followed by a read, and what is parsed or
/// answered by waiting.
pub proof fn law_events_are_answered(
    thread: &mut WsThread,
    shared: &mut SharedState,
    event: WsEvent,
    action: WsAction,
)
    requires
        crate::websocket::phase_accepts(old(thread)@, event),
        call_ensures(WsThread::step, (thread, shared, event), action),
    ensures
        match event {
            WsEvent::Command(command) => action matches WsAction::Send(text) && text@
                == command.wire(),
            WsEvent::Timeout => action is Read,
            WsEvent::Disconnected => action is Stop,
            WsEvent::Sent { delivered } => if old(thread)@ == WsPhase::Greeting(Exchange::Sending)
                || old(thread)@ == WsPhase::Exchanging(Exchange::Sending) {
                action is Read
            } else {
                action is Receive
            },
            WsEvent::Read(ReadResult::Message(Message::Text(text))) => action matches WsAction::Parse(
                given,
            ) && given@ == text@,
            WsEvent::Read(ReadResult::Message(Message::Binary(bytes))) => action
                matches WsAction::Parse(given) && encode_utf8(given@) == bytes@,
            WsEvent::Read(ReadResult::Message(Message::Ping(payload))) => action
                matches WsAction::Pong(given) && given@ == payload@,
            WsEvent::Read(ReadResult::IoError { would_block: true }) => action is Receive,
            WsEvent::Read(_) => if old(thread)@ is Greeting {
                action is Receive
            } else {
                action is Stop
            },
            WsEvent::Parsed(_) => action is Receive,
        },
        action is Receive <==> final(thread)@ == WsPhase::Waiting,
        action is Send <==> final(thread)@ == WsPhase::Exchanging(Exchange::Sending),
        action is Stop <==> final(thread)@ == WsPhase::Stopped,
{
    crate::websocket::law_actions_fit_the_phase(old(thread)@, event);
    if let WsEvent::Read(result) = event {
        crate::websocket::law_what_is_read_is_acted_on(result);
    }
}

/// After a thread has taken in a message, the recorded state is the one that
/// the message means. Nothing else changes it, and nothing that the thread
/// takes in changes whether the connection is alive.
pub proof fn law_messages_are_recorded(
    thread: &mut WsThread,
    shared: &mut SharedState,
    event: WsEvent,
    action: WsAction,
)
    requires
        crate::websocket::phase_accepts(old(thread)@, event),
        call_ensures(WsThread::step, (thread, shared, event), action),
    ensures
        final(shared)@.alive == old(shared)@.alive,
        final(shared)@.state == match event {
            WsEvent::Parsed(Some(CommandResult::Event(Event::Started))) => TimerState::Running,
            WsEvent::Parsed(Some(CommandResult::Event(Event::Resumed))) => TimerState::Running,
            WsEvent::Parsed(Some(CommandResult::Event(Event::Paused))) => TimerState::Paused,
            WsEvent::Parsed(Some(CommandResult::Event(Event::Finished))) => TimerState::Ended,
            WsEvent::Parsed(Some(CommandResult::Event(Event::Reset))) => TimerState::NotRunning,
            WsEvent::Parsed(
                Some(CommandResult::Success(Response::State(State::NotRunning))),
            ) => TimerState::NotRunning,
            WsEvent::Parsed(
                Some(CommandResult::Success(Response::State(State::Running(_)))),
            ) => TimerState::Running,
            WsEvent::Parsed(
                Some(CommandResult::Success(Response::State(State::Paused(_)))),
            ) => TimerState::Paused,
            WsEvent::Parsed(
                Some(CommandResult::Success(Response::State(State::Ended))),
            ) => TimerState::Ended,
            _ => old(shared)@.state,
        },
{
    crate::websocket::law_recorded_state(old(shared)@, event);
}

/// A message is recorded by itself as it is when a thread takes it in.
pub proof fn law_messages_are_recorded_alike(
    parsed: Option<CommandResult>,
    first: &mut SharedState,
    thread: &mut WsThread,
    second: &mut SharedState,
    action: WsAction,
)
    requires
        crate::websocket::phase_accepts(old(thread)@, WsEvent::Parsed(parsed)),
        call_ensures(WsThread::apply, (&parsed, first), ()),
        call_ensures(WsThread::step, (thread, second, WsEvent::Parsed(parsed)), action),
        old(first)@ == old(second)@,
    ensures
        final(first)@ == final(second)@,
{
}

/// What a thread says it takes in is what it waits for.
pub proof fn law_thread_knows_what_it_takes_in(
    thread: WsThread,
    event: WsEvent,
    accepted: bool,
)
    requires
        call_ensures(WsThread::accepts, (&thread, &event), accepted),
    ensures
        match thread@ {
            WsPhase::Waiting => accepted <==> event is Command || event is Timeout
                || event is Disconnected,
            WsPhase::Stopped => !accepted,
            WsPhase::Greeting(exchange) | WsPhase::Exchanging(exchange) => {
                &&& exchange == Exchange::Sending || exchange == Exchange::Answering ==> (accepted
                    <==> event is Sent)
                &&& exchange == Exchange::Parsing ==> (accepted <==> event is Parsed)
                &&& exchange == Exchange::Reading ==> (accepted <==> match event {
                    WsEvent::Read(ReadResult::Message(Message::Binary(bytes))) => valid_utf8(
                        bytes@,
                    ),
                    WsEvent::Read(_) => true,
                    _ => false,
                })
            },
        },
{
}

/// Whatever the threads and the setup say they take in can be taken in.
pub proof fn law_what_is_accepted_can_be_taken_in(
    thread: &mut WsThread,
    shared: &mut SharedState,
    event: WsEvent,
    splitter: &mut SplitterThread,
    tick: TickEvent,
    setup: &mut SplitterSetup,
    progress: SetupEvent,
)
    ensures
        call_ensures(WsThread::accepts, (&*old(thread), &event), true) ==> call_requires(
            WsThread::step,
            (thread, shared, event),
        ),
        call_ensures(SplitterThread::accepts, (&*old(splitter), &tick), true) ==> call_requires(
            SplitterThread::step,
            (splitter, tick),
        ),
        old(setup).wf() && call_ensures(SplitterSetup::accepts, (&*old(setup), &progress), true)
            ==> call_requires(SplitterSetup::step, (setup, progress)),
{
}

/// Every text can be read into every map of settings, and every setting can be
/// inserted, as long as no key occurs twice.
pub proof fn law_maps_can_be_filled(
    text: &str,
    key: String,
    value: SettingValue,
    pairs: Vec<(String, TomlValue)>,
    map: &mut SettingsMap,
)
    requires
        forall|i: int, j: int|
            0 <= i < j < old(map)@.len() ==> (#[trigger] old(map)@[i]).0 != (
            #[trigger] old(map)@[j]).0,
    ensures
        call_requires(SplitterThread::load_settings, (text, map)),
        call_requires(SettingsMap::insert, (map, key, value)),
        call_requires(crate::settings::fill, (pairs, map)),
{
}

/// A setting keeps the kind and the value that it has in the document. What is
/// no setting is named by its own text.
pub proof fn law_settings_keep_their_values(
    value: TomlValue,
    setting: Result<SettingValue, SettingsError>,
)
    requires
        call_ensures(crate::settings::to_setting, (value,), setting),
    ensures
        match value {
            TomlValue::Boolean(x) => setting matches Ok(SettingValue::Bool(y)) && y == x,
            TomlValue::String(x) => setting matches Ok(SettingValue::String(y)) && y@ == x@,
            TomlValue::Integer(x) => setting matches Ok(SettingValue::I64(y)) && y == x,
            TomlValue::Float(x) => setting matches Ok(SettingValue::F64(y)) && y == x,
            TomlValue::Datetime(text) => setting matches Err(SettingsError::Unsupported(named))
                && named@ == text@,
            TomlValue::Array(text) => setting matches Err(SettingsError::Unsupported(named))
                && named@ == text@,
            TomlValue::Table(text) => setting matches Err(SettingsError::Unsupported(named))
                && named@ == text@,
        },
{
}

/// The message about a value that no setting can have ends with the text of the
/// value.
pub proof fn law_message_names_the_value(text: &str, message: String)
    requires
        call_ensures(crate::settings::unsupported_message, (text,), message),
    ensures
        message@ == "Unsupported value type: "@ + text@,
{
}

/// A setting that was inserted comes out with its value, and every other entry
/// as it was, in its place.
pub proof fn law_inserted_setting_comes_out(
    map: &mut SettingsMap,
    key: String,
    value: SettingValue,
    after: SettingsMap,
    entries: Vec<(String, SettingValue)>,
)
    requires
        old(map).wf(),
        call_ensures(SettingsMap::insert, (map, key, value), ()),
        after == *final(map),
        call_ensures(SettingsMap::into_entries, (after,), entries),
    ensures
        exists|i: int|
            0 <= i < entries@.len() && (#[trigger] entries@[i]).0@ == key@ && entries@[i].1@
                == value@,
        forall|i: int|
            0 <= i < old(map)@.len() && old(map)@[i].0 != key@ ==> (#[trigger] entries@[i]).0@
                == old(map)@[i].0 && entries@[i].1@ == old(map)@[i].1,
        forall|i: int|
            old(map)@.len() <= i < entries@.len() ==> (#[trigger] entries@[i]).0@ == key@,
        forall|i: int, j: int|
            0 <= i < j < entries@.len() ==> (#[trigger] entries@[i]).0@ != (
            #[trigger] entries@[j]).0@,
{
    let before = old(map)@;
    let view = final(map)@;
    crate::settings::law_views_keep_the_order(seq![], entries@);
    crate::settings::law_insert_keeps_the_order(before, key@, value@);
    assert(view == crate::settings::entries_view(entries@));
    assert forall|i: int| 0 <= i < entries@.len() implies view[i] == (
        (#[trigger] entries@[i]).0@,
        entries@[i].1@,
    ) by {
        assert(view[i] == crate::settings::entries_view(entries@)[i]);
    }
    if exists|i: int| 0 <= i < before.len() && (#[trigger] before[i]).0 == key@ {
        let i = choose|i: int| 0 <= i < before.len() && (#[trigger] before[i]).0 == key@;
        assert(view[i] == (key@, value@));
        assert(entries@[i].0@ == key@);
    } else {
        assert(view[view.len() - 1] == (key@, value@));
        assert(entries@[view.len() - 1].0@ == key@);
    }
}

/// A new map has no entries.
pub proof fn law_new_map_is_empty(map: SettingsMap, entries: Vec<(String, SettingValue)>)
    requires
        call_ensures(SettingsMap::new, (), map),
        call_ensures(SettingsMap::into_entries, (map,), entries),
    ensures
        entries@.len() == 0,
{
    crate::settings::law_views_keep_the_order(seq![], entries@);
}

/// Read into an empty map, a document comes out as it is: key by key, value by
/// value, in its order. Only of a float that is not a number the bits may
/// differ.
pub proof fn law_document_comes_out(
    text: &str,
    map: &mut SettingsMap,
    result: Result<(), SettingsError>,
    after: SettingsMap,
    entries: Vec<(String, SettingValue)>,
)
    requires
        old(map).wf(),
        old(map)@.len() == 0,
        call_ensures(SplitterThread::load_settings, (text, map), result),
        result is Ok,
        after == *final(map),
        call_ensures(SettingsMap::into_entries, (after,), entries),
    ensures
        crate::settings::toml_document(text@) matches Ok(pairs) && {
            &&& entries@.len() == pairs.len()
            &&& forall|i: int|
                0 <= i < pairs.len() ==> {
                    &&& (#[trigger] entries@[i]).0@ == pairs[i].0
                    &&& match (pairs[i].1, entries@[i].1) {
                        (TomlValueView::Boolean(x), SettingValue::Bool(y)) => x == y,
                        (TomlValueView::String(x), SettingValue::String(y)) => x == y@,
                        (TomlValueView::Integer(x), SettingValue::I64(y)) => x == y,
                        (TomlValueView::Float(x), SettingValue::F64(y)) => x == y
                            || crate::settings::is_nan(x) && crate::settings::is_nan(y),
                        _ => false,
                    }
                }
        },
{
    crate::settings::law_views_keep_the_order(seq![], entries@);
    assert forall|i: int| 0 <= i < entries@.len() implies final(map)@[i] == (
        (#[trigger] entries@[i]).0@,
        entries@[i].1@,
    ) by {
        assert(final(map)@[i] == crate::settings::entries_view(entries@)[i]);
    }
}

/// A thread starts with an update that is due now.
pub proof fn law_thread_starts_with_an_update(now: u128, started: (SplitterThread, TickAction))
    requires
        call_ensures(SplitterThread::new, (now,), started),
    ensures
        started.0@.phase == TickPhase::Updating,
        started.0@.next_tick == now,
        started.1 == TickAction::Update,
{
}

/// A thread goes on after an update by whether commands still reach the timer,
/// after a sleep with an update, and after a measurement with a pause up to the
/// deadline, or if it is over with an update.
pub proof fn law_thread_goes_on(thread: &mut SplitterThread, event: TickEvent, action: TickAction)
    requires
        crate::splitter::tick_accepts(old(thread)@, event),
        call_ensures(SplitterThread::step, (thread, event), action),
    ensures
        match event {
            TickEvent::Updated { failed, alive } => {
                &&& final(thread)@.next_tick == old(thread)@.next_tick
                &&& alive ==> action == TickAction::Measure && final(thread)@.phase
                    == TickPhase::Measuring
                &&& !alive ==> action == TickAction::Stop && final(thread)@.phase
                    == TickPhase::Stopped
            },
            TickEvent::Slept => {
                &&& final(thread)@.next_tick == old(thread)@.next_tick
                &&& action == TickAction::Update
                &&& final(thread)@.phase == TickPhase::Updating
            },
            TickEvent::Measured { tick_rate, now } => {
                let due = old(thread)@.next_tick + tick_rate;
                &&& due >= now ==> {
                    &&& final(thread)@.next_tick == due
                    &&& final(thread)@.phase == TickPhase::Sleeping
                    &&& action matches TickAction::Sleep(pause)
                    &&& now + pause.seconds * 1_000_000_000 + pause.nanoseconds == due
                    &&& pause.nanoseconds < 1_000_000_000
                }
                &&& due < now ==> {
                    &&& final(thread)@.next_tick == now
                    &&& final(thread)@.phase == TickPhase::Updating
                    &&& action == TickAction::Update
                }
            },
        },
{
}

/// What a thread says it takes in is what it waits for, as long as the deadline
/// can be told in seconds and nanoseconds.
pub proof fn law_splitter_knows_what_it_takes_in(
    thread: SplitterThread,
    event: TickEvent,
    accepted: bool,
)
    requires
        call_ensures(SplitterThread::accepts, (&thread, &event), accepted),
    ensures
        accepted <==> match (thread@.phase, event) {
            (TickPhase::Updating, TickEvent::Updated { .. }) => true,
            (TickPhase::Measuring, TickEvent::Measured { tick_rate, .. }) => thread@.next_tick
                + tick_rate < 0x1_0000_0000_0000_0000 * 1_000_000_000,
            (TickPhase::Sleeping, TickEvent::Slept) => true,
            _ => false,
        },
{
}

/// A setup starts with reading the module, and without settings.
pub proof fn law_setup_starts_with_the_module(
    has_settings: bool,
    started: (SplitterSetup, SetupAction),
)
    requires
        call_ensures(SplitterSetup::new, (has_settings,), started),
    ensures
        started.0@.phase == (SetupPhase::ReadingModule { has_settings }),
        started.0@.settings.len() == 0,
        started.1 is ReadModule,
{
}

/// The settings that are taken out of a setup are those that were read. None
/// are left, and the setup goes on where it was.
pub proof fn law_settings_are_taken_out(setup: &mut SplitterSetup, settings: SettingsMap)
    requires
        old(setup).wf(),
        call_ensures(SplitterSetup::take_settings, (setup,), settings),
    ensures
        settings@ == old(setup)@.settings,
        final(setup)@.settings.len() == 0,
        final(setup)@.phase == old(setup)@.phase,
{
}

/// A setup goes from the module to the settings if there are any, then to
/// compiling, to starting and to running. The step that fails is what the error
/// tells of.
pub proof fn law_setup_takes_its_steps(
    setup: &mut SplitterSetup,
    event: SetupEvent,
    action: SetupAction,
)
    requires
        old(setup).wf(),
        crate::splitter::setup_accepts(old(setup)@.phase, event),
        call_ensures(SplitterSetup::step, (setup, event), action),
    ensures
        match event {
            SetupEvent::ModuleRead { success: false } => action matches SetupAction::Fail(error)
                && error is ModuleUnreadable,
            SetupEvent::ModuleRead { success: true } => if old(setup)@.phase == (
            SetupPhase::ReadingModule { has_settings: true }) {
                action is ReadSettings
            } else {
                action is Compile
            },
            SetupEvent::SettingsRead(None) => action matches SetupAction::Fail(error)
                && error is SettingsUnreadable,
            SetupEvent::SettingsRead(Some(text)) => match crate::settings::toml_document(text@) {
                Ok(pairs) => match crate::settings::filled(old(setup)@.settings, pairs).1 {
                    Ok(_) => action is Compile,
                    Err(refused) => action matches SetupAction::Fail(SetupError::InvalidSettings(e))
                        && e@ == refused,
                },
                Err(message) => action matches SetupAction::Fail(
                    SetupError::InvalidSettings(SettingsError::Toml(given)),
                ) && given@ == message,
            },
            SetupEvent::Compiled { success } => if success {
                action is Instantiate
            } else {
                action matches SetupAction::Fail(error) && error is CompileFailed
            },
            SetupEvent::Instantiated { success } => if success {
                action is Run
            } else {
                action matches SetupAction::Fail(error) && error is InstantiateFailed
            },
        },
        action matches SetupAction::Compile(options) ==> !options.debug_info && options.optimize
            && !options.backtrace_details,
        !(event matches SetupEvent::SettingsRead(Some(_))) ==> final(setup)@.settings == old(
            setup,
        )@.settings,
        action is ReadSettings <==> final(setup)@.phase == SetupPhase::ReadingSettings,
        action is Compile <==> final(setup)@.phase == SetupPhase::Compiling,
        action is Instantiate <==> final(setup)@.phase == SetupPhase::Instantiating,
        action is Run || action is Fail <==> final(setup)@.phase == SetupPhase::Finished,
{
}

/// Once a setup has read its settings file, its settings are those of the file:
/// key by key, value by value, in its order. Only of a float that is not a
/// number the bits may differ.
pub proof fn law_setup_settings_are_those_of_the_file(
    setup: &mut SplitterSetup,
    text: String,
    action: SetupAction,
)
    requires
        old(setup).wf(),
        old(setup)@.phase == SetupPhase::ReadingSettings,
        old(setup)@.settings.len() == 0,
        call_ensures(SplitterSetup::step, (setup, SetupEvent::SettingsRead(Some(text))), action),
        action is Compile,
    ensures
        crate::settings::toml_document(text@) matches Ok(pairs) && {
            &&& final(setup)@.settings.len() == pairs.len()
            &&& forall|i: int|
                0 <= i < pairs.len() ==> {
                    &&& (#[trigger] final(setup)@.settings[i]).0 == pairs[i].0
                    &&& match (pairs[i].1, final(setup)@.settings[i].1) {
                        (TomlValueView::Boolean(x), SettingValueView::Bool(y)) => x == y,
                        (TomlValueView::String(x), SettingValueView::String(y)) => x == y,
                        (TomlValueView::Integer(x), SettingValueView::I64(y)) => x == y,
                        (TomlValueView::Float(x), SettingValueView::F64(y)) => x == y
                            || crate::settings::is_nan(x) && crate::settings::is_nan(y),
                        _ => false,
                    }
                }
        },
{
    let document = crate::settings::toml_document(text@);
    let event = SetupEvent::SettingsRead(Some(text));
    let parsed = choose|parsed: Result<Seq<(Seq<char>, TomlValueView)>, Seq<char>>|
        {
            &&& #[trigger] crate::splitter::is_parse_of(parsed, event)
            &&& (final(setup)@, action@) == crate::splitter::setup_step(old(setup)@, event, parsed)
            &&& event is SettingsRead && old(setup)@.settings.len() == 0 && action is Compile
                ==> final(setup)@.settings == crate::settings::settings_of(parsed->Ok_0)
        };
    let pairs = parsed->Ok_0;
    crate::settings::law_reading_keeps_the_document(pairs, document->Ok_0);
    crate::settings::law_fill_succeeds_on_settings(old(setup)@.settings, pairs);
    assert forall|i: int| 0 <= i < pairs.len() implies (#[trigger] final(setup)@.settings[i])
        == (pairs[i].0, crate::settings::setting_of(pairs[i].1)->Ok_0) by {
        assert(crate::settings::setting_of(pairs[i].1) is Ok);
    }
}

/// What a setup says it takes in is what it waits for.
pub proof fn law_setup_knows_what_it_takes_in(
    setup: SplitterSetup,
    event: SetupEvent,
    accepted: bool,
)
    requires
        call_ensures(SplitterSetup::accepts, (&setup, &event), accepted),
    ensures
        accepted <==> match setup@.phase {
            SetupPhase::ReadingModule { .. } => event is ModuleRead,
            SetupPhase::ReadingSettings => event is SettingsRead,
            SetupPhase::Compiling => event is Compiled,
            SetupPhase::Instantiating => event is Instantiated,
            SetupPhase::Finished => false,
        },
{
}

/// Only errors about the settings are told without the step that failed.
pub proof fn law_errors_tell_the_step(error: SetupError, context: Option<&'static str>)
    requires
        call_ensures(SetupError::context, (&error,), context),
    ensures
        context is None <==> error is SettingsUnreadable || error is InvalidSettings,
        error is ModuleUnreadable ==> context->0@
            == "Failed loading the auto splitter from the file system."@,
        error is CompileFailed ==> context->0@ == "Failed loading the auto splitter."@,
        error is InstantiateFailed ==> context->0@ == "Failed starting the auto splitter."@,
{
}

} // verus!
