//! The decisions of the connection loop.
//!
//! One task owns the socket. It waits for whichever comes first of an item on
//! the outbound queue, a frame from the socket, and the end of the idle
//! window; it reports that as an [`Event`], and [`step`] answers with the next
//! state and the one [`Action`] to perform. The waiting and the socket are the
//! task's; every decision is made here.
//!
//! The connection goes from `Connecting` to `Open`, and from `Open` through
//! `Closing` to `Closed`. It leaves `Open` when the peer sends a close frame,
//! when the owner asks for the close or is gone, and on any transport
//! failure; each time a close frame is sent as far as the socket allows.

use crate::decoder::{decode, decode_text, Decoded};
use crate::models::{Msg, MsgView};
use vstd::prelude::*;

verus! {

/// The idle window: the seconds without any event after which a ping is
/// sent. The server closes a connection that is silent for 60 seconds.
pub const PING_TIMER_SECS: u64 = 59;

/// The payload of the keepalive ping.
pub const PING_PAYLOAD: &'static str = "PING";

/// The state of the connection.
#[derive(Debug, Clone, Copy, PartialEq, Eq, Structural)]
pub enum State {
    Connecting,
    Open,
    Closing,
    Closed,
}

/// A frame from the socket.
#[derive(Debug, Clone, PartialEq, Eq)]
pub enum Frame {
    Text(String),
    Binary(Vec<u8>),
    Ping(Vec<u8>),
    Pong(Vec<u8>),
    Close,
}

/// What a frame holds, as character and byte sequences.
pub enum FrameView {
    Text(Seq<char>),
    Binary(Seq<u8>),
    Ping(Seq<u8>),
    Pong(Seq<u8>),
    Close,
}

impl View for Frame {
    type V = FrameView;

    open spec fn view(&self) -> FrameView {
        match self {
            Frame::Text(t) => FrameView::Text(t@),
            Frame::Binary(b) => FrameView::Binary(b@),
            Frame::Ping(b) => FrameView::Ping(b@),
            Frame::Pong(b) => FrameView::Pong(b@),
            Frame::Close => FrameView::Close,
        }
    }
}

/// An item of the outbound queue.
#[derive(Debug, Clone, PartialEq, Eq)]
pub enum Outbound {
    /// A request, as its JSON text.
    Text(String),
    /// The owner asks for the close.
    Close,
}

/// What an item of the outbound queue holds, as character and byte sequences.
pub enum OutboundView {
    Text(Seq<char>),
    Close,
}

impl View for Outbound {
    type V = OutboundView;

    open spec fn view(&self) -> OutboundView {
        match self {
            Outbound::Text(t) => OutboundView::Text(t@),
            Outbound::Close => OutboundView::Close,
        }
    }
}

/// What the loop has seen.
#[derive(Debug, Clone, PartialEq, Eq)]
pub enum Event {
    /// The handshake with the endpoint succeeded.
    Connected,
    /// The handshake with the endpoint failed.
    ConnectFailed,
    /// An item came off the outbound queue.
    Outbound(Outbound),
    /// The outbound queue is closed: the owner is gone.
    OutboundClosed,
    /// A frame came from the socket.
    Inbound(Frame),
    /// The socket's stream has ended.
    InboundEnded,
    /// A send or a receive failed.
    TransportError,
    /// The idle window went by without any other event.
    IdleElapsed,
    /// The close frame has been sent.
    CloseSent,
}

/// What an event holds, as character and byte sequences.
pub enum EventView {
    Connected,
    ConnectFailed,
    Outbound(OutboundView),
    OutboundClosed,
    Inbound(FrameView),
    InboundEnded,
    TransportError,
    IdleElapsed,
    CloseSent,
}

impl View for Event {
    type V = EventView;

    open spec fn view(&self) -> EventView {
        match self {
            Event::Connected => EventView::Connected,
            Event::ConnectFailed => EventView::ConnectFailed,
            Event::Outbound(o) => EventView::Outbound(o@),
            Event::OutboundClosed => EventView::OutboundClosed,
            Event::Inbound(f) => EventView::Inbound(f@),
            Event::InboundEnded => EventView::InboundEnded,
            Event::TransportError => EventView::TransportError,
            Event::IdleElapsed => EventView::IdleElapsed,
            Event::CloseSent => EventView::CloseSent,
        }
    }
}

/// Why a text frame is dropped.
#[derive(Debug, Clone, Copy, PartialEq, Eq, Structural)]
pub enum Dropped {
    /// The frame is JSON of no known shape.
    Unrecognized,
    /// The frame is not JSON.
    Malformed,
}

/// What the loop is to do before it waits again.
#[derive(Debug, Clone, PartialEq, Eq)]
pub enum Action {
    /// Nothing.
    Wait,
    /// Nothing but to log that a frame was dropped: nothing is sent and
    /// nothing is delivered.
    Drop(Dropped),
    /// Write the text to the socket and flush it.
    Send(String),
    /// Send a ping frame with the keepalive payload.
    Ping,
    /// Answer a ping: send a pong frame with this payload.
    Pong(Vec<u8>),
    /// Put the message on the inbound queue.
    Deliver(Msg),
    /// Send a close frame, then report `CloseSent` or `TransportError`.
    Close,
    /// Leave the loop.
    Stop,
}

/// What an action holds, as character and byte sequences.
pub enum ActionView {
    Wait,
    Drop(Dropped),
    Send(Seq<char>),
    Ping,
    Pong(Seq<u8>),
    Deliver(MsgView),
    Close,
    Stop,
}

impl View for Action {
    type V = ActionView;

    open spec fn view(&self) -> ActionView {
        match self {
            Action::Wait => ActionView::Wait,
            Action::Drop(why) => ActionView::Drop(*why),
            Action::Send(t) => ActionView::Send(t@),
            Action::Ping => ActionView::Ping,
            Action::Pong(b) => ActionView::Pong(b@),
            Action::Deliver(m) => ActionView::Deliver(m@),
            Action::Close => ActionView::Close,
            Action::Stop => ActionView::Stop,
        }
    }
}

/// What a text frame leads to: the delivery of its message, or its drop
/// where it is malformed or of no known shape.
pub open spec fn text_action(text: Seq<char>) -> ActionView {
    match decode_text(text) {
        Some(Some(m)) => ActionView::Deliver(m),
        Some(None) => ActionView::Drop(Dropped::Unrecognized),
        None => ActionView::Drop(Dropped::Malformed),
    }
}

/// The step of an open connection.
pub open spec fn open_step(e: EventView) -> (State, ActionView) {
    match e {
        EventView::Outbound(OutboundView::Text(t)) => (State::Open, ActionView::Send(t)),
        EventView::Outbound(OutboundView::Close) => (State::Closing, ActionView::Close),
        EventView::OutboundClosed => (State::Closing, ActionView::Close),
        EventView::Inbound(FrameView::Text(t)) => (State::Open, text_action(t)),
        EventView::Inbound(FrameView::Binary(_)) => (State::Closing, ActionView::Close),
        EventView::Inbound(FrameView::Ping(p)) => (State::Open, ActionView::Pong(p)),
        EventView::Inbound(FrameView::Pong(_)) => (State::Open, ActionView::Wait),
        EventView::Inbound(FrameView::Close) => (State::Closing, ActionView::Close),
        EventView::InboundEnded => (State::Closing, ActionView::Close),
        EventView::TransportError => (State::Closing, ActionView::Close),
        EventView::IdleElapsed => (State::Open, ActionView::Ping),
        _ => (State::Open, ActionView::Wait),
    }
}

/// The next state and the action, for every state and event.
pub open spec fn step_spec(s: State, e: EventView) -> (State, ActionView) {
    match s {
        State::Connecting => match e {
            EventView::Connected => (State::Open, ActionView::Wait),
            EventView::ConnectFailed => (State::Closed, ActionView::Stop),
            EventView::TransportError => (State::Closed, ActionView::Stop),
            _ => (State::Connecting, ActionView::Wait),
        },
        State::Open => open_step(e),
        State::Closing => match e {
            EventView::CloseSent => (State::Closed, ActionView::Stop),
            EventView::TransportError => (State::Closed, ActionView::Stop),
            EventView::InboundEnded => (State::Closed, ActionView::Stop),
            _ => (State::Closing, ActionView::Wait),
        },
        State::Closed => (State::Closed, ActionView::Stop),
    }
}

/// Decides on a text frame of an open connection.
pub fn on_text(text: &str) -> (r: Action)
    ensures
        r@ == text_action(text@),
{
    match decode(text) {
        Decoded::Message(m) => Action::Deliver(m),
        Decoded::Unrecognized => Action::Drop(Dropped::Unrecognized),
        Decoded::Malformed => Action::Drop(Dropped::Malformed),
    }
}

/// Decides on an event of an open connection.
fn on_open(event: Event) -> (r: (State, Action))
    ensures
        (r.0, r.1@) == open_step(event@),
{
    match event {
        Event::Outbound(Outbound::Text(t)) => (State::Open, Action::Send(t)),
        Event::Outbound(Outbound::Close) => (State::Closing, Action::Close),
        Event::OutboundClosed => (State::Closing, Action::Close),
        Event::Inbound(Frame::Text(t)) => (State::Open, on_text(t.as_str())),
        Event::Inbound(Frame::Binary(_)) => (State::Closing, Action::Close),
        Event::Inbound(Frame::Ping(p)) => (State::Open, Action::Pong(p)),
        Event::Inbound(Frame::Pong(_)) => (State::Open, Action::Wait),
        Event::Inbound(Frame::Close) => (State::Closing, Action::Close),
        Event::InboundEnded => (State::Closing, Action::Close),
        Event::TransportError => (State::Closing, Action::Close),
        Event::IdleElapsed => (State::Open, Action::Ping),
        _ => (State::Open, Action::Wait),
    }
}

/// Decides what follows an event: the next state and the action to
/// perform.
pub fn step(state: State, event: Event) -> (r: (State, Action))
    ensures
        (r.0, r.1@) == step_spec(state, event@),
{
    match state {
        State::Connecting => match event {
            Event::Connected => (State::Open, Action::Wait),
            Event::ConnectFailed => (State::Closed, Action::Stop),
            Event::TransportError => (State::Closed, Action::Stop),
            _ => (State::Connecting, Action::Wait),
        },
        State::Open => on_open(event),
        State::Closing => match event {
            Event::CloseSent => (State::Closed, Action::Stop),
            Event::TransportError => (State::Closed, Action::Stop),
            Event::InboundEnded => (State::Closed, Action::Stop),
            _ => (State::Closing, Action::Wait),
        },
        State::Closed => (State::Closed, Action::Stop),
    }
}

/// How long the loop waits for an event before it reports `IdleElapsed`:
/// the idle window while the connection is open, and no limit otherwise.
/// The window starts anew with every wait.
pub fn idle_window(state: State) -> (r: Option<u64>)
    ensures
        r == (if state is Open {
            Some(PING_TIMER_SECS)
        } else {
            None
        }),
{
    match state {
        State::Open => Some(PING_TIMER_SECS),
        _ => None,
    }
}

/// Whether the connection has left `Open` for good.
pub open spec fn is_shut(s: State) -> bool {
    s is Closing || s is Closed
}

/// The state after a run of events.
pub open spec fn run(s: State, events: Seq<EventView>) -> State
    decreases events.len(),
{
    if events.len() == 0 {
        s
    } else {
        step_spec(run(s, events.drop_last()), events.last()).0
    }
}

/// The actions of a run of events, one for each event.
pub open spec fn actions(s: State, events: Seq<EventView>) -> Seq<ActionView> {
    Seq::new(events.len(), |i: int| step_spec(run(s, events.take(i)), events[i]).1)
}

/// How many of the actions are pings.
pub open spec fn pings(acts: Seq<ActionView>) -> nat
    decreases acts.len(),
{
    if acts.len() == 0 {
        0
    } else {
        pings(acts.drop_last()) + (if acts.last() is Ping {
            1nat
        } else {
            0nat
        })
    }
}

/// How many times the idle window of an open connection went by during a
/// run of events.
pub open spec fn idle_windows(s: State, events: Seq<EventView>) -> nat
    decreases events.len(),
{
    if events.len() == 0 {
        0
    } else {
        idle_windows(s, events.drop_last()) + (if run(s, events.drop_last()) is Open
            && events.last() is IdleElapsed {
            1nat
        } else {
            0nat
        })
    }
}

/// The actions of a run but the last are the actions of the run but its
/// last event.
pub proof fn actions_of_prefix(s: State, events: Seq<EventView>)
    requires
        events.len() > 0,
    ensures
        actions(s, events).drop_last() == actions(s, events.drop_last()),
        actions(s, events).last() == step_spec(run(s, events.drop_last()), events.last()).1,
{
    let shorter = events.drop_last();
    assert forall|i: int| 0 <= i < shorter.len() implies #[trigger] events.take(i) == shorter.take(
        i,
    ) by {
        assert(events.take(i) =~= shorter.take(i));
    }
    assert(actions(s, events).drop_last() =~= actions(s, shorter));
    assert(events.take(events.len() - 1) =~= shorter);
}

/// In every run of events, from every state, there are exactly as many
/// pings as idle windows that went by while the connection was open: any
/// other event starts the window anew and sends none.
pub proof fn pings_count_idle_windows(s: State, events: Seq<EventView>)
    ensures
        pings(actions(s, events)) == idle_windows(s, events),
    decreases events.len(),
{
    if events.len() > 0 {
        pings_count_idle_windows(s, events.drop_last());
        actions_of_prefix(s, events);
        ping_only_when_idle(run(s, events.drop_last()), events.last());
    } else {
        assert(actions(s, events) =~= Seq::empty());
    }
}

/// A ping is sent exactly when the idle window of an open connection goes
/// by: no other event sends one, and that event sends nothing else and
/// leaves the connection open.
pub proof fn ping_only_when_idle(s: State, e: EventView)
    ensures
        step_spec(s, e).1 is Ping <==> (s is Open && e is IdleElapsed),
        s is Open && e is IdleElapsed ==> step_spec(s, e) == (State::Open, ActionView::Ping),
{
}

/// While the connection stays open and nothing happens, each idle window
/// that goes by sends exactly one ping.
pub proof fn one_ping_per_idle_window(n: nat)
    ensures
        run(State::Open, Seq::new(n, |i: int| EventView::IdleElapsed)) == State::Open,
        pings(actions(State::Open, Seq::new(n, |i: int| EventView::IdleElapsed))) == n,
    decreases n,
{
    let events = Seq::new(n, |i: int| EventView::IdleElapsed);
    if n > 0 {
        let shorter = Seq::new((n - 1) as nat, |i: int| EventView::IdleElapsed);
        one_ping_per_idle_window((n - 1) as nat);
        assert(events.drop_last() =~= shorter);
        assert forall|i: int| 0 <= i < n implies run(State::Open, #[trigger] events.take(i))
            == State::Open by {
            one_ping_per_idle_window(i as nat);
            assert(events.take(i) =~= Seq::new(i as nat, |j: int| EventView::IdleElapsed));
        }
        assert(actions(State::Open, events).drop_last() =~= actions(State::Open, shorter)) by {
            assert forall|i: int| 0 <= i < n - 1 implies #[trigger] events.take(i)
                == shorter.take(i) by {
                assert(events.take(i) =~= shorter.take(i));
            }
        }
        assert(events.take(n - 1) =~= shorter);
        assert(actions(State::Open, events).last() is Ping);
    } else {
        assert(actions(State::Open, events) =~= Seq::empty());
    }
}

/// A text frame that is malformed or of no known shape is dropped: the
/// connection stays open, nothing is sent and nothing is delivered, so that
/// the frames after it are handled as if it had not come.
pub proof fn dropped_frame_changes_nothing(text: Seq<char>)
    requires
        !(decode_text(text) matches Some(Some(_))),
    ensures
        step_spec(State::Open, EventView::Inbound(FrameView::Text(text))).0 == State::Open,
        step_spec(State::Open, EventView::Inbound(FrameView::Text(text))).1 is Drop,
        decode_text(text) is Some ==> step_spec(
            State::Open,
            EventView::Inbound(FrameView::Text(text)),
        ).1 == ActionView::Drop(Dropped::Unrecognized),
{
}

/// Once the connection has left `Open` it never returns, and no message is
/// delivered any more.
pub proof fn shut_stays_shut(s: State, e: EventView)
    requires
        is_shut(s),
    ensures
        is_shut(step_spec(s, e).0),
        !(step_spec(s, e).1 is Deliver),
        !(step_spec(s, e).1 is Send),
{
}

/// After any run of events from a connection that has left `Open`, the
/// connection is still shut and none of the actions was a delivery.
pub proof fn no_delivery_after_close(s: State, events: Seq<EventView>)
    requires
        is_shut(s),
    ensures
        is_shut(run(s, events)),
        forall|i: int| 0 <= i < events.len() ==> !(#[trigger] actions(s, events)[i] is Deliver),
    decreases events.len(),
{
    if events.len() > 0 {
        no_delivery_after_close(s, events.drop_last());
        shut_stays_shut(run(s, events.drop_last()), events.last());
        assert forall|i: int| 0 <= i < events.len() implies !(#[trigger] actions(s, events)[i]
            is Deliver) by {
            no_delivery_after_close(s, events.take(i));
            shut_stays_shut(run(s, events.take(i)), events[i]);
        }
    }
}

/// The owner's close, the owner's departure and the peer's close frame each
/// make an open connection send a close frame and leave `Open`; the report
/// that the frame was sent, or that it could not be, ends the loop.
pub proof fn close_is_sent_then_loop_stops(e: EventView, done: EventView)
    requires
        e == EventView::Outbound(OutboundView::Close) || e is OutboundClosed || e
            == EventView::Inbound(FrameView::Close),
        done is CloseSent || done is TransportError,
    ensures
        step_spec(State::Open, e) == (State::Closing, ActionView::Close),
        step_spec(State::Closing, done) == (State::Closed, ActionView::Stop),
{
}

} // verus!
