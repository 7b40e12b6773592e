use pori::frame::{
    is_hop_by_hop_name, response_to_frame, route_inbound_frame, strip_hop_by_hop, LocalResponse,
    RouteAction, TunnelFrame,
};
use pori::session::{
    apply_jitter, backoff_base_ms, Session, SessionAction, SessionEvent, SessionState,
};
use pori::status::reason_phrase;
use pori::{AppStats, ConnectionStatus};

fn header(name: &str, value: &str) -> (String, String) {
    (String::from(name), String::from(value))
}

#[test]
fn reason_phrases_match_the_registry() {
    assert_eq!(reason_phrase(200), "OK");
    assert_eq!(reason_phrase(204), "No Content");
    assert_eq!(reason_phrase(301), "Moved Permanently");
    assert_eq!(reason_phrase(404), "Not Found");
    assert_eq!(reason_phrase(418), "I'm a teapot");
    assert_eq!(reason_phrase(502), "Bad Gateway");
    assert_eq!(reason_phrase(503), "Service Unavailable");
    assert_eq!(reason_phrase(504), "Gateway Timeout");
    assert_eq!(reason_phrase(599), "");
    assert_eq!(reason_phrase(0), "");
}

#[test]
fn hop_by_hop_names_are_recognized_case_insensitively() {
    for name in [
        "Connection",
        "connection",
        "CONNECTION",
        "Keep-Alive",
        "Upgrade",
        "TE",
        "Trailer",
        "Transfer-Encoding",
        "Proxy-Authorization",
        "proxy-connection",
    ] {
        assert!(is_hop_by_hop_name(name), "{} is hop-by-hop", name);
    }
    for name in ["Content-Type", "Host", "X-Proxy", "Authorization", "te-x"] {
        assert!(!is_hop_by_hop_name(name), "{} is end-to-end", name);
    }
}

#[test]
fn response_frame_is_byte_exact_minus_hop_by_hop() {
    let response = LocalResponse {
        status: 201,
        status_text: String::from("Created"),
        headers: vec![
            header("Content-Type", "application/json"),
            header("Connection", "keep-alive"),
            header("X-Request-Id", "42"),
            header("Transfer-Encoding", "chunked"),
        ],
        body: Some(vec![0, 159, 146, 150]),
    };
    let frame = response_to_frame("req-1", &response);
    match frame {
        TunnelFrame::HttpResponse { id, status, status_text, headers, body } => {
            assert_eq!(id, "req-1");
            assert_eq!(status, 201);
            assert_eq!(status_text, "Created");
            assert_eq!(
                headers,
                vec![
                    header("Content-Type", "application/json"),
                    header("X-Request-Id", "42"),
                ]
            );
            assert_eq!(body, Some(vec![0, 159, 146, 150]));
        }
        other => panic!("unexpected frame: {:?}", other),
    }
}

#[test]
fn stripping_keeps_order_and_values() {
    let headers = vec![
        header("b", "2"),
        header("Proxy-Thing", "x"),
        header("a", "1"),
    ];
    let stripped = strip_hop_by_hop(&headers);
    assert_eq!(stripped, vec![header("b", "2"), header("a", "1")]);
}

#[test]
fn routing_of_inbound_frames() {
    let req = TunnelFrame::HttpRequest {
        id: String::from("r1"),
        method: String::from("GET"),
        url: String::from("/x"),
        headers: vec![header("Host", "h")],
        body: None,
    };
    match route_inbound_frame(req) {
        RouteAction::DeliverRequest { id, method, url, .. } => {
            assert_eq!(id, "r1");
            assert_eq!(method, "GET");
            assert_eq!(url, "/x");
        }
        other => panic!("unexpected action: {:?}", other),
    }
    assert!(matches!(route_inbound_frame(TunnelFrame::Ping), RouteAction::ReplyPong));
    assert!(matches!(route_inbound_frame(TunnelFrame::Pong), RouteAction::ResetLiveness));
    match route_inbound_frame(TunnelFrame::Error {
        id: Some(String::from("r9")),
        message: String::from("cancelled"),
    }) {
        RouteAction::CancelRequest { id } => assert_eq!(id, "r9"),
        other => panic!("unexpected action: {:?}", other),
    }
    assert!(matches!(
        route_inbound_frame(TunnelFrame::Error { id: None, message: String::from("oops") }),
        RouteAction::Ignore
    ));
    assert!(matches!(
        route_inbound_frame(TunnelFrame::AuthAck { ok: true, reason: None }),
        RouteAction::Ignore
    ));
}

#[test]
fn reconnect_cycle_counts_exactly_one() {
    let mut session = Session::new(0);
    assert_eq!(session.state, SessionState::Connecting);
    assert_eq!(session.step(SessionEvent::ConnectSucceeded), SessionAction::SendAuth);
    assert_eq!(session.state, SessionState::Authenticating);
    assert_eq!(session.step(SessionEvent::AuthAccepted), SessionAction::Continue);
    assert_eq!(session.state, SessionState::Connected);
    assert_eq!(session.reconnects, 0);

    // The remote closes the session: Connected -> Reconnecting -> Connecting
    // -> Connected, and the counter moves exactly once.
    assert_eq!(session.step(SessionEvent::TransportFailed), SessionAction::Backoff);
    assert_eq!(session.state, SessionState::Reconnecting);
    assert_eq!(session.reconnects, 1);
    assert_eq!(session.step(SessionEvent::BackoffElapsed), SessionAction::Connect);
    assert_eq!(session.state, SessionState::Connecting);
    assert_eq!(session.step(SessionEvent::ConnectSucceeded), SessionAction::SendAuth);
    assert_eq!(session.step(SessionEvent::AuthAccepted), SessionAction::Continue);
    assert_eq!(session.state, SessionState::Connected);
    assert_eq!(session.reconnects, 1);
    assert_eq!(session.consecutive_failures, 0);
}

#[test]
fn unlimited_reconnects_never_stop_voluntarily() {
    let mut session = Session::new(0);
    for _ in 0..100 {
        session.step(SessionEvent::ConnectFailed);
        assert_eq!(session.state, SessionState::Reconnecting);
        session.step(SessionEvent::BackoffElapsed);
        assert_eq!(session.state, SessionState::Connecting);
    }
    assert_eq!(session.consecutive_failures, 100);
}

#[test]
fn bounded_reconnects_exhaust_into_disconnected() {
    let mut session = Session::new(2);
    assert_eq!(session.step(SessionEvent::ConnectFailed), SessionAction::Backoff);
    session.step(SessionEvent::BackoffElapsed);
    assert_eq!(session.step(SessionEvent::ConnectFailed), SessionAction::Backoff);
    session.step(SessionEvent::BackoffElapsed);
    assert_eq!(
        session.step(SessionEvent::ConnectFailed),
        SessionAction::Stop { fatal: false }
    );
    assert_eq!(session.state, SessionState::Disconnected);
}

#[test]
fn fatal_auth_rejection_is_terminal() {
    let mut session = Session::new(0);
    session.step(SessionEvent::ConnectSucceeded);
    assert_eq!(
        session.step(SessionEvent::AuthRejected { retriable: false }),
        SessionAction::Stop { fatal: true }
    );
    assert_eq!(session.state, SessionState::Disconnected);
    // Terminal: nothing moves it again.
    assert_eq!(session.step(SessionEvent::ConnectSucceeded), SessionAction::Continue);
    assert_eq!(session.state, SessionState::Disconnected);
}

#[test]
fn retriable_auth_rejection_reconnects_and_counts() {
    let mut session = Session::new(0);
    session.step(SessionEvent::ConnectSucceeded);
    assert_eq!(
        session.step(SessionEvent::AuthRejected { retriable: true }),
        SessionAction::Backoff
    );
    assert_eq!(session.state, SessionState::Reconnecting);
    assert_eq!(session.reconnects, 1);
}

#[test]
fn backoff_doubles_and_caps() {
    assert_eq!(backoff_base_ms(0), 1000);
    assert_eq!(backoff_base_ms(1), 1000);
    assert_eq!(backoff_base_ms(2), 2000);
    assert_eq!(backoff_base_ms(3), 4000);
    assert_eq!(backoff_base_ms(4), 8000);
    assert_eq!(backoff_base_ms(5), 16000);
    assert_eq!(backoff_base_ms(6), 30000);
    assert_eq!(backoff_base_ms(1000), 30000);
}

#[test]
fn jitter_scales_by_permille() {
    assert_eq!(apply_jitter(1000, 800), 800);
    assert_eq!(apply_jitter(1000, 1200), 1200);
    assert_eq!(apply_jitter(30000, 1200), 36000);
    assert_eq!(apply_jitter(30000, 1000), 30000);
}

#[test]
fn app_stats_counters_stay_consistent() {
    let mut stats = AppStats::new();
    assert!(matches!(stats.connection_status, ConnectionStatus::Connecting));
    stats.record_success(10);
    stats.record_failure();
    stats.record_success(5);
    assert_eq!(stats.requests_processed, 3);
    assert_eq!(stats.requests_successful, 2);
    assert_eq!(stats.requests_failed, 1);
    assert_eq!(stats.bytes_forwarded, 15);
    assert_eq!(
        stats.requests_successful + stats.requests_failed,
        stats.requests_processed
    );

    let before = stats.websocket_reconnects;
    stats.record_reconnect();
    assert_eq!(stats.websocket_reconnects, before + 1);

    stats.set_connection_status(ConnectionStatus::Connected);
    assert!(matches!(stats.connection_status, ConnectionStatus::Connected));
    stats.set_uptime(77);
    assert_eq!(stats.uptime_seconds, 77);
}
