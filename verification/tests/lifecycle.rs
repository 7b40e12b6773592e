use pori::inflight::InFlightTable;
use pori::session::{
    keepalive_action, shutdown_drain_done, KeepaliveAction, Session, SessionEvent,
};
use pori::wire::{frame_message, parse_frame};
use pori::ConnectionStatus;

#[test]
fn inflight_ids_are_unique_and_settled_once() {
    let mut table = InFlightTable::new();
    assert_eq!(table.len(), 0);
    assert!(table.accept("a"));
    assert!(table.accept("b"));
    assert!(!table.accept("a"), "a duplicate id is not accepted twice");
    assert_eq!(table.len(), 2);
    assert!(table.contains("a"));
    assert!(table.contains("b"));
    assert!(!table.contains("c"));

    assert!(table.settle("a"));
    assert!(!table.settle("a"), "an id settles exactly once");
    assert!(!table.contains("a"));
    assert_eq!(table.len(), 1);

    // A remote cancel settles the id the same way; afterwards it may be
    // reused by a fresh session.
    assert!(table.settle("b"));
    assert_eq!(table.len(), 0);
    assert!(table.accept("a"));
}

#[test]
fn settling_one_id_leaves_the_others_in_flight() {
    let mut table = InFlightTable::new();
    assert!(table.accept("a"));
    assert!(table.accept("b"));
    assert!(table.accept("c"));
    assert!(table.settle("b"));
    assert_eq!(table.len(), 2);
    assert!(table.contains("a"));
    assert!(!table.contains("b"));
    assert!(table.contains("c"));
}

#[test]
fn keepalive_pings_on_idle_and_declares_death_on_silence() {
    // Fresh traffic in both directions: nothing to do.
    assert_eq!(keepalive_action(10_000, 9_000, 9_500), KeepaliveAction::Wait);
    // Thirty seconds of outbound idle: ping.
    assert_eq!(keepalive_action(40_000, 20_000, 10_000), KeepaliveAction::SendPing);
    // A minute without any inbound frame: the session is dead.
    assert_eq!(keepalive_action(70_000, 10_000, 69_000), KeepaliveAction::DeclareDead);
    // Death wins over the ping that would also be due.
    assert_eq!(keepalive_action(70_000, 10_000, 10_000), KeepaliveAction::DeclareDead);
    // Boundaries: one millisecond short on either clock.
    assert_eq!(keepalive_action(69_999, 10_000, 39_999), KeepaliveAction::SendPing);
    assert_eq!(keepalive_action(39_999, 39_999, 10_000), KeepaliveAction::Wait);
}

#[test]
fn transport_framing_round_trips() {
    let first = vec![1u8, 2, 3, 4, 5];
    let second = vec![9u8];
    let mut stream = frame_message(&first);
    stream.extend_from_slice(&frame_message(&second));

    let (payload, next) = parse_frame(&stream, 0).expect("a whole frame is there");
    assert_eq!(payload, first);
    assert_eq!(next, 9);
    let (payload, next) = parse_frame(&stream, next).expect("the second frame follows");
    assert_eq!(payload, second);
    assert_eq!(next, stream.len());
    assert!(parse_frame(&stream, next).is_none(), "an empty tail holds no frame");

    // A truncated stream makes the reader wait instead of guessing.
    let cut = stream[..7].to_vec();
    assert!(parse_frame(&cut, 0).is_none());

    // The empty payload still travels as a frame of its own.
    let empty = frame_message(&Vec::new());
    assert_eq!(empty, vec![0u8, 0, 0, 0]);
    let (payload, next) = parse_frame(&empty, 0).expect("a frame with no payload");
    assert!(payload.is_empty());
    assert_eq!(next, 4);
}

#[test]
fn shutdown_waits_for_the_drain_or_the_deadline() {
    assert!(shutdown_drain_done(0, 0));
    assert!(!shutdown_drain_done(3, 0));
    assert!(!shutdown_drain_done(3, 4_999));
    assert!(shutdown_drain_done(3, 5_000));
}

#[test]
fn session_states_map_to_connection_status() {
    let mut session = Session::new(0);
    assert!(matches!(session.status(), ConnectionStatus::Connecting));
    session.step(SessionEvent::ConnectSucceeded);
    assert!(matches!(session.status(), ConnectionStatus::Connecting));
    session.step(SessionEvent::AuthAccepted);
    assert!(matches!(session.status(), ConnectionStatus::Connected));
    session.step(SessionEvent::TransportFailed);
    assert!(matches!(session.status(), ConnectionStatus::Reconnecting));
    session.step(SessionEvent::ShutdownRequested);
    assert!(matches!(session.status(), ConnectionStatus::Disconnected));
}
