use groundwork::connector::{
    exit_code, read_ticket, ConnectAction, ConnectError, ConnectEvent, ConnectPhase, Connector,
};
use groundwork::forward::{ForwardError, ForwardingOutcome, Side};
use groundwork::listener::{Listener, ListenerAction, ListenerEvent, Pair};
use groundwork::ticket::TicketError;

#[test]
fn streams_get_distinct_connections() {
    let mut l = Listener::new();
    let mut dials = Vec::new();
    for _ in 0..3 {
        match l.step(ListenerEvent::StreamAccepted) {
            ListenerAction::Dial { stream } => dials.push(stream),
            a => panic!("unexpected {:?}", a),
        }
    }
    assert_eq!(dials, vec![0, 1, 2]);
    for (i, s) in dials.iter().enumerate() {
        let a = l.step(ListenerEvent::Dialed { stream: *s, connection: 100 + i as u64 });
        assert_eq!(a, ListenerAction::Forward { stream: *s, connection: 100 + i as u64 });
    }
    // a connection that is already paired is never shared
    let s = match l.step(ListenerEvent::StreamAccepted) {
        ListenerAction::Dial { stream } => stream,
        a => panic!("unexpected {:?}", a),
    };
    assert_eq!(
        l.step(ListenerEvent::Dialed { stream: s, connection: 101 }),
        ListenerAction::Discard { stream: s, connection: 101 }
    );
    assert_eq!(l.pairs.len(), 3);
}

#[test]
fn failed_dial_touches_only_its_stream() {
    let mut l = Listener::new();
    assert_eq!(l.step(ListenerEvent::StreamAccepted), ListenerAction::Dial { stream: 0 });
    assert_eq!(l.step(ListenerEvent::StreamAccepted), ListenerAction::Dial { stream: 1 });
    assert_eq!(
        l.step(ListenerEvent::Dialed { stream: 0, connection: 7 }),
        ListenerAction::Forward { stream: 0, connection: 7 }
    );
    assert_eq!(
        l.step(ListenerEvent::DialFailed { stream: 1 }),
        ListenerAction::ResetStream { stream: 1 }
    );
    assert_eq!(l.pairs, vec![Pair { stream: 0, connection: 7 }]);
    assert!(l.accepting);
    assert_eq!(l.step(ListenerEvent::StreamAccepted), ListenerAction::Dial { stream: 2 });
    assert_eq!(
        l.step(ListenerEvent::PairDone { stream: 0 }),
        ListenerAction::Release { stream: 0 }
    );
    assert!(l.pairs.is_empty());
}

#[test]
fn shutdown_closes_everything_now() {
    let mut l = Listener::new();
    let _ = l.step(ListenerEvent::StreamAccepted);
    let _ = l.step(ListenerEvent::Dialed { stream: 0, connection: 3 });
    let _ = l.step(ListenerEvent::StreamAccepted);
    assert_eq!(l.step(ListenerEvent::Shutdown), ListenerAction::CloseAll);
    assert!(l.pairs.is_empty() && l.dialing.is_empty());
    assert_eq!(l.step(ListenerEvent::StreamAccepted), ListenerAction::Refuse);
    assert_eq!(
        l.step(ListenerEvent::Dialed { stream: 1, connection: 4 }),
        ListenerAction::Discard { stream: 1, connection: 4 }
    );
    assert_eq!(l.step(ListenerEvent::PairDone { stream: 0 }), ListenerAction::Nothing);
}

#[test]
fn unreachable_peer_fails_at_deadline() {
    let mut c = Connector::new(1000, 5000);
    assert_eq!(c.step(ConnectEvent::Tick { now_ms: 3000 }), ConnectAction::Wait);
    assert_eq!(c.phase, ConnectPhase::Establishing);
    assert_eq!(c.step(ConnectEvent::Tick { now_ms: 6000 }), ConnectAction::Finish);
    assert_eq!(c.result, Some(Err(ConnectError::Unreachable)));
    assert_eq!(exit_code(&c.result.unwrap()), 1);
}

#[test]
fn session_failure_is_unreachable() {
    let mut c = Connector::new(0, 10);
    assert_eq!(c.step(ConnectEvent::SessionFailed), ConnectAction::Finish);
    assert_eq!(c.result, Some(Err(ConnectError::Unreachable)));
}

#[test]
fn late_session_is_unreachable() {
    let mut c = Connector::new(0, 10);
    assert_eq!(c.step(ConnectEvent::SessionEstablished { now_ms: 10 }), ConnectAction::Finish);
    assert_eq!(c.result, Some(Err(ConnectError::Unreachable)));
}

#[test]
fn connect_happy_path() {
    let mut c = Connector::new(0, 10);
    assert_eq!(c.step(ConnectEvent::SessionEstablished { now_ms: 9 }), ConnectAction::OpenStream);
    assert_eq!(c.step(ConnectEvent::StreamOpened), ConnectAction::StartForwarding);
    assert_eq!(
        c.step(ConnectEvent::ForwardDone(Ok(ForwardingOutcome::Clean))),
        ConnectAction::Finish
    );
    assert_eq!(c.result, Some(Ok(())));
    assert_eq!(exit_code(&Ok(())), 0);
    assert_eq!(c.step(ConnectEvent::StreamOpenFailed), ConnectAction::Wait);
}

#[test]
fn stream_open_failure() {
    let mut c = Connector::new(0, 10);
    let _ = c.step(ConnectEvent::SessionEstablished { now_ms: 1 });
    assert_eq!(c.step(ConnectEvent::StreamOpenFailed), ConnectAction::Finish);
    assert_eq!(c.result, Some(Err(ConnectError::StreamOpenFailed)));
}

#[test]
fn forwarding_error_ends_command() {
    let mut c = Connector::new(0, 10);
    let _ = c.step(ConnectEvent::SessionEstablished { now_ms: 1 });
    let _ = c.step(ConnectEvent::StreamOpened);
    let _ = c.step(ConnectEvent::ForwardDone(Err(ForwardError::Io(Side::A))));
    assert_eq!(c.result, Some(Err(ConnectError::Forward(ForwardError::Io(Side::A)))));
}

#[test]
fn invalid_ticket_is_reported() {
    assert_eq!(
        read_ticket("nope").unwrap_err(),
        ConnectError::InvalidTicket(TicketError::Malformed)
    );
    assert_eq!(
        read_ticket("09").unwrap_err(),
        ConnectError::InvalidTicket(TicketError::UnknownVersion)
    );
}
