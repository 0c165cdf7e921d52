//! Whole runs of the websocket thread.

use vstd::prelude::*;
use vstd::utf8::*;

use crate::shared::SharedStateView;
use crate::websocket::{Exchange, Message, ReadResult, WsActionView, WsEvent, WsPhase};

verus! {

/// What has come of a run of the websocket thread.
pub struct WsTrace {
    /// Where the thread is.
    pub phase: WsPhase,
    /// The shared state.
    pub shared: SharedStateView,
    /// What the thread asked for after each of the events.
    pub actions: Seq<WsActionView>,
}

/// The run of a thread through a sequence of events.
pub open spec fn trace(phase: WsPhase, shared: SharedStateView, events: Seq<WsEvent>) -> WsTrace
    decreases events.len(),
{
    if events.len() == 0 {
        WsTrace { phase, shared, actions: seq![] }
    } else {
        let before = trace(phase, shared, events.drop_last());
        let (next, action) = crate::websocket::phase_step(before.phase, events.last());
        WsTrace {
            phase: next,
            shared: crate::websocket::shared_step(before.shared, events.last()),
            actions: before.actions.push(action),
        }
    }
}

/// Each of the events is what the thread waits for when it comes.
pub open spec fn is_trace(phase: WsPhase, shared: SharedStateView, events: Seq<WsEvent>) -> bool {
    forall|i: int|
        0 <= i < events.len() ==> crate::websocket::phase_accepts(
            trace(phase, shared, events.take(i)).phase,
            #[trigger] events[i],
        )
}

/// The texts of the commands among the events, in order.
pub open spec fn command_texts(events: Seq<WsEvent>) -> Seq<Seq<char>>
    decreases events.len(),
{
    if events.len() == 0 {
        seq![]
    } else {
        let before = command_texts(events.drop_last());
        match events.last() {
            WsEvent::Command(command) => before.push(command.wire()),
            _ => before,
        }
    }
}

/// The texts that the actions send, in order.
pub open spec fn sent_texts(actions: Seq<WsActionView>) -> Seq<Seq<char>>
    decreases actions.len(),
{
    if actions.len() == 0 {
        seq![]
    } else {
        let before = sent_texts(actions.drop_last());
        match actions.last() {
            WsActionView::Send(text) => before.push(text),
            _ => before,
        }
    }
}

/// The payloads of the pings among the events, in order.
pub open spec fn ping_payloads(events: Seq<WsEvent>) -> Seq<Seq<u8>>
    decreases events.len(),
{
    if events.len() == 0 {
        seq![]
    } else {
        let before = ping_payloads(events.drop_last());
        match events.last() {
            WsEvent::Read(ReadResult::Message(Message::Ping(payload))) => before.push(payload@),
            _ => before,
        }
    }
}

/// The payloads of the pongs that the actions send, in order.
pub open spec fn pong_payloads(actions: Seq<WsActionView>) -> Seq<Seq<u8>>
    decreases actions.len(),
{
    if actions.len() == 0 {
        seq![]
    } else {
        let before = pong_payloads(actions.drop_last());
        match actions.last() {
            WsActionView::Pong(payload) => before.push(payload),
            _ => before,
        }
    }
}

/// The event ends a thread that reads: the other side closed the connection,
/// the read failed, or something came that is neither text nor ping.
pub open spec fn ends_reading(event: WsEvent) -> bool {
    match event {
        WsEvent::Read(ReadResult::Message(message)) => {
            message is Close || message is Pong || message is Frame
        },
        WsEvent::Read(ReadResult::IoError { would_block }) => !would_block,
        WsEvent::Read(ReadResult::OtherError) => true,
        _ => false,
    }
}

/// A run without its last event.
proof fn lemma_shorter_trace(phase: WsPhase, shared: SharedStateView, events: Seq<WsEvent>)
    requires
        is_trace(phase, shared, events),
        events.len() > 0,
    ensures
        is_trace(phase, shared, events.drop_last()),
        crate::websocket::phase_accepts(
            trace(phase, shared, events.drop_last()).phase,
            events.last(),
        ),
{
    let shorter = events.drop_last();
    assert(events.take(events.len() - 1) =~= shorter);
    assert(events[events.len() - 1] == events.last());
    assert forall|i: int| 0 <= i < shorter.len() implies crate::websocket::phase_accepts(
        trace(phase, shared, shorter.take(i)).phase,
        #[trigger] shorter[i],
    ) by {
        assert(shorter.take(i) =~= events.take(i));
        assert(shorter[i] == events[i]);
    }
}

/// What a run asks for after an event depends on where it was before it.
proof fn lemma_action_at(phase: WsPhase, shared: SharedStateView, events: Seq<WsEvent>, i: int)
    requires
        0 <= i < events.len(),
    ensures
        trace(phase, shared, events).actions.len() == events.len(),
        trace(phase, shared, events).actions[i] == crate::websocket::phase_step(
            trace(phase, shared, events.take(i)).phase,
            events[i],
        ).1,
    decreases events.len(),
{
    let shorter = events.drop_last();
    if shorter.len() > 0 {
        lemma_action_at(phase, shared, shorter, if i < shorter.len() { i } else { 0 });
    }
    if i < shorter.len() {
        assert(shorter.take(i) =~= events.take(i));
    } else {
        assert(events.take(i) =~= shorter);
    }
}

/// The recorded state of the timer is the last one that was reported, and the
/// initial one as long as none was. Nothing else of the shared state changes.
pub proof fn law_state_is_the_last_report(
    phase: WsPhase,
    shared: SharedStateView,
    events: Seq<WsEvent>,
)
    ensures
        trace(phase, shared, events).shared.alive == shared.alive,
        (forall|i: int|
            0 <= i < events.len() ==> crate::websocket::event_report(#[trigger] events[i]) is None)
            ==> trace(phase, shared, events).shared.state == shared.state,
        forall|i: int|
            0 <= i < events.len() && crate::websocket::event_report(#[trigger] events[i]) is Some
                && (forall|j: int|
                i < j < events.len() ==> crate::websocket::event_report(#[trigger] events[j])
                    is None) ==> Some(trace(phase, shared, events).shared.state)
                == crate::websocket::event_report(events[i]),
    decreases events.len(),
{
    if events.len() > 0 {
        let shorter = events.drop_last();
        law_state_is_the_last_report(phase, shared, shorter);
        assert(forall|i: int| 0 <= i < shorter.len() ==> #[trigger] shorter[i] == events[i]);
        let last = events[events.len() - 1];
        if crate::websocket::event_report(last) is None {
            let states = trace(phase, shared, events).shared;
            assert(states == trace(phase, shared, shorter).shared);
            assert forall|i: int|
                0 <= i < events.len() && crate::websocket::event_report(#[trigger] events[i])
                    is Some && (forall|j: int|
                    i < j < events.len() ==> crate::websocket::event_report(#[trigger] events[j])
                        is None) implies Some(states.state)
                == crate::websocket::event_report(events[i]) by {
                assert(shorter[i] == events[i]);
                assert forall|j: int| i < j < shorter.len() implies crate::websocket::event_report(
                    #[trigger] shorter[j],
                ) is None by {
                    assert(shorter[j] == events[j]);
                }
            }
            if forall|i: int|
                0 <= i < events.len() ==> crate::websocket::event_report(#[trigger] events[i])
                    is None {
                assert forall|i: int| 0 <= i < shorter.len() implies
                    crate::websocket::event_report(#[trigger] shorter[i]) is None by {
                    assert(shorter[i] == events[i]);
                }
            }
        }
    }
}

/// Every command is sent exactly once, in the order of arrival, and no other
/// text is.
pub proof fn law_commands_are_sent_in_order(
    phase: WsPhase,
    shared: SharedStateView,
    events: Seq<WsEvent>,
)
    requires
        is_trace(phase, shared, events),
    ensures
        sent_texts(trace(phase, shared, events).actions) == command_texts(events),
    decreases events.len(),
{
    if events.len() > 0 {
        lemma_shorter_trace(phase, shared, events);
        law_commands_are_sent_in_order(phase, shared, events.drop_last());
        let actions = trace(phase, shared, events).actions;
        assert(actions.drop_last() =~= trace(phase, shared, events.drop_last()).actions);
    }
}

/// Every ping is answered exactly once, with its own payload, in the order of
/// arrival, and there are no other pongs.
pub proof fn law_pings_are_answered_in_order(
    phase: WsPhase,
    shared: SharedStateView,
    events: Seq<WsEvent>,
)
    requires
        is_trace(phase, shared, events),
    ensures
        pong_payloads(trace(phase, shared, events).actions) == ping_payloads(events),
    decreases events.len(),
{
    if events.len() > 0 {
        lemma_shorter_trace(phase, shared, events);
        law_pings_are_answered_in_order(phase, shared, events.drop_last());
        let actions = trace(phase, shared, events).actions;
        assert(actions.drop_last() =~= trace(phase, shared, events.drop_last()).actions);
    }
}

/// After a command is sent, or could not be, the websocket is read.
pub proof fn law_read_after_each_command(
    phase: WsPhase,
    shared: SharedStateView,
    events: Seq<WsEvent>,
    i: int,
)
    requires
        is_trace(phase, shared, events),
        0 <= i < events.len() - 1,
        events[i] is Command,
    ensures
        events[i + 1] is Sent,
        trace(phase, shared, events).actions[i + 1] == WsActionView::Read,
{
    lemma_action_at(phase, shared, events, i + 1);
    assert(events.take(i + 1).drop_last() =~= events.take(i));
    assert(events.take(i + 1).last() == events[i]);
}

/// A thread ends when no command can arrive any more, or by what it reads
/// outside of the first exchange, and for no other reason. In particular a
/// message that could not be sent, and a text that could not be parsed, do not
/// end it.
pub proof fn law_causes_of_the_end(phase: WsPhase, event: WsEvent)
    requires
        crate::websocket::phase_accepts(phase, event),
    ensures
        crate::websocket::phase_step(phase, event).0 == WsPhase::Stopped <==> {
            ||| event is Disconnected
            ||| phase == WsPhase::Exchanging(Exchange::Reading) && ends_reading(event)
        },
        crate::websocket::phase_step(phase, event).1 == WsActionView::Stop
            <==> crate::websocket::phase_step(phase, event).0 == WsPhase::Stopped,
{
}

/// The first exchange always leads to waiting for commands: it lasts three
/// events at most, whatever they are.
pub proof fn law_greeting_leads_to_waiting(shared: SharedStateView, events: Seq<WsEvent>)
    requires
        is_trace(WsPhase::Greeting(Exchange::Sending), shared, events),
        events.len() == 3,
    ensures
        exists|n: int|
            2 <= n <= 3 && (#[trigger] trace(
                WsPhase::Greeting(Exchange::Sending),
                shared,
                events.take(n),
            )).phase == WsPhase::Waiting,
{
    let start = WsPhase::Greeting(Exchange::Sending);
    assert(events.take(0) =~= seq![]);
    assert(events.take(1).drop_last() =~= events.take(0));
    assert(events.take(2).drop_last() =~= events.take(1));
    assert(events.take(3).drop_last() =~= events.take(2));
    assert(events.take(1).last() == events[0]);
    assert(events.take(2).last() == events[1]);
    assert(events.take(3).last() == events[2]);
    assert(trace(start, shared, events.take(0)).phase == start);
    assert(trace(start, shared, events.take(1)).phase == WsPhase::Greeting(Exchange::Reading));
    if trace(start, shared, events.take(2)).phase != WsPhase::Waiting {
        assert(crate::websocket::phase_accepts(
            trace(start, shared, events.take(2)).phase,
            events[2],
        ));
        assert(trace(start, shared, events.take(3)).phase == WsPhase::Waiting);
    }
}

/// Nothing happens after the end: a thread that has ended waits for nothing.
pub proof fn law_end_is_final(event: WsEvent)
    ensures
        !crate::websocket::phase_accepts(WsPhase::Stopped, event),
{
}

/// The texts that are read, in order: those of text messages, and those that
/// bytes encode.
pub open spec fn read_texts(events: Seq<WsEvent>) -> Seq<Seq<char>>
    decreases events.len(),
{
    if events.len() == 0 {
        seq![]
    } else {
        let before = read_texts(events.drop_last());
        match events.last() {
            WsEvent::Read(ReadResult::Message(Message::Text(text))) => before.push(text@),
            WsEvent::Read(ReadResult::Message(Message::Binary(bytes))) => before.push(
                decode_utf8(bytes@),
            ),
            _ => before,
        }
    }
}

/// The texts that the actions hand on for parsing, in order.
pub open spec fn parsed_texts(actions: Seq<WsActionView>) -> Seq<Seq<char>>
    decreases actions.len(),
{
    if actions.len() == 0 {
        seq![]
    } else {
        let before = parsed_texts(actions.drop_last());
        match actions.last() {
            WsActionView::Parse(text) => before.push(text),
            _ => before,
        }
    }
}

/// Every text that is read is handed on for parsing exactly once, unchanged and
/// in the order of arrival, and nothing else is parsed.
pub proof fn law_texts_are_parsed_in_order(
    phase: WsPhase,
    shared: SharedStateView,
    events: Seq<WsEvent>,
)
    requires
        is_trace(phase, shared, events),
    ensures
        parsed_texts(trace(phase, shared, events).actions) == read_texts(events),
    decreases events.len(),
{
    if events.len() > 0 {
        lemma_shorter_trace(phase, shared, events);
        law_texts_are_parsed_in_order(phase, shared, events.drop_last());
        let actions = trace(phase, shared, events).actions;
        assert(actions.drop_last() =~= trace(phase, shared, events.drop_last()).actions);
    }
}

/// In every run a text that is read is followed by what came of parsing it, and
/// then the recorded state is the one that the message means.
pub proof fn law_text_leads_to_its_state(
    phase: WsPhase,
    shared: SharedStateView,
    events: Seq<WsEvent>,
    i: int,
)
    requires
        is_trace(phase, shared, events),
        0 <= i < events.len() - 1,
        events[i] matches WsEvent::Read(ReadResult::Message(Message::Text(_))),
    ensures
        events[i + 1] is Parsed,
        trace(phase, shared, events.take(i + 2)).shared == crate::websocket::shared_step(
            trace(phase, shared, events.take(i)).shared,
            events[i + 1],
        ),
        trace(phase, shared, events.take(i + 2)).phase == WsPhase::Waiting,
{
    assert(events.take(i + 1).drop_last() =~= events.take(i));
    assert(events.take(i + 1).last() == events[i]);
    assert(events.take(i + 2).drop_last() =~= events.take(i + 1));
    assert(events.take(i + 2).last() == events[i + 1]);
}

} // verus!
