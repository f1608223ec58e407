use cf_ws_v1::models::{Msg, Version};
use cf_ws_v1::mux::{
    idle_window, on_text, step, Action, Dropped, Event, Frame, Outbound, State, PING_PAYLOAD,
    PING_TIMER_SECS,
};

fn all_events() -> Vec<Event> {
    vec![
        Event::Connected,
        Event::ConnectFailed,
        Event::Outbound(Outbound::Text("{}".to_owned())),
        Event::Outbound(Outbound::Close),
        Event::OutboundClosed,
        Event::Inbound(Frame::Text(r#"{"event":"info","version":1}"#.to_owned())),
        Event::Inbound(Frame::Text("junk".to_owned())),
        Event::Inbound(Frame::Binary(vec![1, 2])),
        Event::Inbound(Frame::Ping(vec![3])),
        Event::Inbound(Frame::Pong(vec![4])),
        Event::Inbound(Frame::Close),
        Event::InboundEnded,
        Event::TransportError,
        Event::IdleElapsed,
        Event::CloseSent,
    ]
}

#[test]
fn keepalive_constants() {
    assert_eq!(PING_TIMER_SECS, 59);
    assert_eq!(PING_PAYLOAD, "PING");
}

#[test]
fn idle_window_runs_only_while_open() {
    assert_eq!(idle_window(State::Open), Some(59));
    assert_eq!(idle_window(State::Connecting), None);
    assert_eq!(idle_window(State::Closing), None);
    assert_eq!(idle_window(State::Closed), None);
}

#[test]
fn connecting_opens_on_handshake() {
    assert_eq!(step(State::Connecting, Event::Connected), (State::Open, Action::Wait));
}

#[test]
fn connecting_fails_to_closed() {
    assert_eq!(step(State::Connecting, Event::ConnectFailed), (State::Closed, Action::Stop));
    assert_eq!(step(State::Connecting, Event::TransportError), (State::Closed, Action::Stop));
}

#[test]
fn connecting_ignores_everything_else() {
    assert_eq!(step(State::Connecting, Event::IdleElapsed), (State::Connecting, Action::Wait));
    assert_eq!(
        step(State::Connecting, Event::Outbound(Outbound::Text("x".to_owned()))),
        (State::Connecting, Action::Wait)
    );
    assert_eq!(
        step(State::Connecting, Event::Inbound(Frame::Close)),
        (State::Connecting, Action::Wait)
    );
}

#[test]
fn open_sends_outbound_text() {
    assert_eq!(
        step(State::Open, Event::Outbound(Outbound::Text("{\"a\":1}".to_owned()))),
        (State::Open, Action::Send("{\"a\":1}".to_owned()))
    );
}

#[test]
fn open_delivers_decoded_text() {
    assert_eq!(
        step(State::Open, Event::Inbound(Frame::Text(r#"{"event":"info","version":1}"#.to_owned()))),
        (
            State::Open,
            Action::Deliver(Msg::Version(Version { event: "info".to_owned(), version: 1 }))
        )
    );
}

#[test]
fn open_drops_unknown_and_malformed_text() {
    assert_eq!(
        step(State::Open, Event::Inbound(Frame::Text(r#"{"feed":"new"}"#.to_owned()))),
        (State::Open, Action::Drop(Dropped::Unrecognized))
    );
    assert_eq!(
        step(State::Open, Event::Inbound(Frame::Text("not json".to_owned()))),
        (State::Open, Action::Drop(Dropped::Malformed))
    );
}

#[test]
fn dropped_frame_is_followed_by_normal_delivery() {
    let (state, action) =
        step(State::Open, Event::Inbound(Frame::Text(r#"{"feed":"new"}"#.to_owned())));
    assert_eq!(action, Action::Drop(Dropped::Unrecognized));
    let (state, action) =
        step(state, Event::Inbound(Frame::Text(r#"{"event":"info","version":2}"#.to_owned())));
    assert_eq!(state, State::Open);
    assert_eq!(
        action,
        Action::Deliver(Msg::Version(Version { event: "info".to_owned(), version: 2 }))
    );
}

#[test]
fn open_answers_ping_with_same_payload() {
    assert_eq!(
        step(State::Open, Event::Inbound(Frame::Ping(vec![1, 2, 3]))),
        (State::Open, Action::Pong(vec![1, 2, 3]))
    );
}

#[test]
fn open_only_observes_pong() {
    assert_eq!(
        step(State::Open, Event::Inbound(Frame::Pong(vec![1]))),
        (State::Open, Action::Wait)
    );
}

#[test]
fn open_pings_when_idle() {
    assert_eq!(step(State::Open, Event::IdleElapsed), (State::Open, Action::Ping));
}

#[test]
fn only_idle_open_connection_pings() {
    for state in [State::Connecting, State::Open, State::Closing, State::Closed] {
        for event in all_events() {
            let idle = event == Event::IdleElapsed;
            let (_, action) = step(state, event);
            assert_eq!(action == Action::Ping, state == State::Open && idle);
        }
    }
}

#[test]
fn three_idle_windows_give_three_pings() {
    let mut state = State::Open;
    let mut pings = 0;
    for _ in 0..3 {
        let (next, action) = step(state, Event::IdleElapsed);
        state = next;
        if action == Action::Ping {
            pings += 1;
        }
    }
    assert_eq!(state, State::Open);
    assert_eq!(pings, 3);
}

#[test]
fn open_closes_on_peer_close() {
    assert_eq!(step(State::Open, Event::Inbound(Frame::Close)), (State::Closing, Action::Close));
}

#[test]
fn open_closes_on_owner_request() {
    assert_eq!(
        step(State::Open, Event::Outbound(Outbound::Close)),
        (State::Closing, Action::Close)
    );
    assert_eq!(step(State::Open, Event::OutboundClosed), (State::Closing, Action::Close));
}

#[test]
fn open_closes_on_transport_failure() {
    assert_eq!(step(State::Open, Event::TransportError), (State::Closing, Action::Close));
    assert_eq!(step(State::Open, Event::InboundEnded), (State::Closing, Action::Close));
}

#[test]
fn open_closes_on_binary_frame() {
    assert_eq!(
        step(State::Open, Event::Inbound(Frame::Binary(vec![0]))),
        (State::Closing, Action::Close)
    );
}

#[test]
fn open_ignores_reports_that_do_not_belong() {
    assert_eq!(step(State::Open, Event::Connected), (State::Open, Action::Wait));
    assert_eq!(step(State::Open, Event::ConnectFailed), (State::Open, Action::Wait));
    assert_eq!(step(State::Open, Event::CloseSent), (State::Open, Action::Wait));
}

#[test]
fn closing_ends_when_close_is_sent_or_fails() {
    assert_eq!(step(State::Closing, Event::CloseSent), (State::Closed, Action::Stop));
    assert_eq!(step(State::Closing, Event::TransportError), (State::Closed, Action::Stop));
    assert_eq!(step(State::Closing, Event::InboundEnded), (State::Closed, Action::Stop));
}

#[test]
fn closing_delivers_nothing() {
    assert_eq!(
        step(
            State::Closing,
            Event::Inbound(Frame::Text(r#"{"event":"info","version":1}"#.to_owned()))
        ),
        (State::Closing, Action::Wait)
    );
    assert_eq!(
        step(State::Closing, Event::Outbound(Outbound::Text("x".to_owned()))),
        (State::Closing, Action::Wait)
    );
    assert_eq!(step(State::Closing, Event::IdleElapsed), (State::Closing, Action::Wait));
}

#[test]
fn closed_always_stops() {
    for event in all_events() {
        assert_eq!(step(State::Closed, event), (State::Closed, Action::Stop));
    }
}

#[test]
fn nothing_is_delivered_or_sent_after_the_close() {
    for start in [State::Closing, State::Closed] {
        for first in all_events() {
            let (state, action) = step(start, first);
            assert!(state == State::Closing || state == State::Closed);
            assert!(!matches!(action, Action::Deliver(_) | Action::Send(_)));
            for second in all_events() {
                let (state, action) = step(state, second);
                assert!(state == State::Closing || state == State::Closed);
                assert!(!matches!(action, Action::Deliver(_) | Action::Send(_)));
            }
        }
    }
}

#[test]
fn teardown_sends_close_then_stops() {
    let (state, action) = step(State::Connecting, Event::Connected);
    assert_eq!((state, action), (State::Open, Action::Wait));
    let (state, action) = step(state, Event::Outbound(Outbound::Close));
    assert_eq!((state, action), (State::Closing, Action::Close));
    let (state, action) = step(state, Event::CloseSent);
    assert_eq!((state, action), (State::Closed, Action::Stop));
}

#[test]
fn on_text_delivers_or_waits() {
    assert_eq!(
        on_text(r#"{"event":"info","version":3}"#),
        Action::Deliver(Msg::Version(Version { event: "info".to_owned(), version: 3 }))
    );
    assert_eq!(on_text("{}"), Action::Drop(Dropped::Unrecognized));
    assert_eq!(on_text("{"), Action::Drop(Dropped::Malformed));
}
