use pori::forwarder::{admission_allows, LocalCallResult, LocalError, ProxyForwarder};
use pori::frame::{LocalResponse, TunnelFrame};
use pori::text::u64_to_decimal;
use pori::urlpath::extract_path_from_url;
use pori::DashboardEvent;

fn ok_response(status: u16, body: &[u8]) -> LocalCallResult {
    LocalCallResult::Response(LocalResponse {
        status,
        status_text: String::from("OK"),
        headers: Vec::new(),
        body: Some(body.to_vec()),
    })
}

#[test]
fn test_url_path_extraction() {
    assert_eq!(extract_path_from_url("/api/test"), "/api/test");
    assert_eq!(extract_path_from_url("api/test"), "/api/test");

    let full_url_result = extract_path_from_url("https://example.com/api/test?param=value");
    assert_eq!(full_url_result, "/api/test?param=value");
}

#[test]
fn test_stats_initialization() {
    let forwarder = ProxyForwarder::new(String::from("http://localhost:3000"), 30_000);

    let stats = forwarder.get_stats();
    assert_eq!(stats.requests_processed, 0);
    assert_eq!(stats.requests_successful, 0);
    assert_eq!(stats.requests_failed, 0);
}

#[test]
fn url_normalization_all_forms_agree() {
    assert_eq!(extract_path_from_url("/x?y=1"), "/x?y=1");
    assert_eq!(extract_path_from_url("x?y=1"), "/x?y=1");
    assert_eq!(extract_path_from_url("https://h/x?y=1"), "/x?y=1");
    assert_eq!(extract_path_from_url(""), "/");
}

#[test]
fn url_normalization_idempotent_on_samples() {
    for raw in ["/a/b?c=d", "a/b", "https://host/a?b=c", "", "weird input"] {
        let once = extract_path_from_url(raw);
        let twice = extract_path_from_url(&once);
        assert_eq!(once, twice);
    }
}

#[test]
fn happy_path() {
    let mut fwd = ProxyForwarder::new(String::from("http://127.0.0.1:3000"), 30_000);
    let ev = fwd.begin_request("GET", "/ping");
    match ev {
        DashboardEvent::RequestForwarded(s) => assert_eq!(s, "GET /ping"),
        other => panic!("unexpected event: {:?}", other),
    }
    assert_eq!(fwd.get_stats().active_requests, 1);

    let (frame, ev) = fwd.complete_request("a", "GET", "/ping", Some(ok_response(200, b"pong")), 5, false);
    match frame {
        Some(TunnelFrame::HttpResponse { id, status, status_text, body, .. }) => {
            assert_eq!(id, "a");
            assert_eq!(status, 200);
            assert_eq!(status_text, "OK");
            assert_eq!(body, Some(b"pong".to_vec()));
        }
        other => panic!("unexpected frame: {:?}", other),
    }
    match ev {
        Some(DashboardEvent::ResponseReceived(status, len)) => {
            assert_eq!(status, 200);
            assert_eq!(len, 4);
        }
        other => panic!("unexpected event: {:?}", other),
    }
    let stats = fwd.get_stats();
    assert_eq!(stats.requests_processed, 1);
    assert_eq!(stats.requests_successful, 1);
    assert_eq!(stats.requests_failed, 0);
    assert_eq!(stats.active_requests, 0);
    assert_eq!(stats.bytes_forwarded, 4);
}

#[test]
fn a_5xx_answer_of_the_local_origin_is_still_a_success() {
    let mut fwd = ProxyForwarder::new(String::from("http://127.0.0.1:3000"), 30_000);
    fwd.begin_request("GET", "/broken");
    let (frame, _ev) = fwd.complete_request("k", "GET", "/broken", Some(ok_response(500, b"oops")), 3, false);
    match frame {
        Some(TunnelFrame::HttpResponse { status, status_text, body, .. }) => {
            assert_eq!(status, 500);
            assert_eq!(status_text, "Internal Server Error");
            assert_eq!(body, Some(b"oops".to_vec()));
        }
        other => panic!("unexpected frame: {:?}", other),
    }
    let stats = fwd.get_stats();
    assert_eq!(stats.requests_successful, 1);
    assert_eq!(stats.requests_failed, 0);
}

#[test]
fn connection_refused_yields_503() {
    let mut fwd = ProxyForwarder::new(String::from("http://127.0.0.1:3000"), 30_000);
    fwd.begin_request("GET", "/");
    let err = LocalCallResult::Failed(LocalError::Connection(String::from("connect refused")));
    let (frame, _ev) = fwd.complete_request("b", "GET", "/", Some(err), 3, false);
    match frame {
        Some(TunnelFrame::HttpResponse { id, status, status_text, body, .. }) => {
            assert_eq!(id, "b");
            assert_eq!(status, 503);
            assert_eq!(status_text, "Service Unavailable");
            let body = body.expect("synthetic responses carry a body");
            assert!(body.starts_with(b"Local server is unreachable"));
        }
        other => panic!("unexpected frame: {:?}", other),
    }
    let stats = fwd.get_stats();
    assert_eq!(stats.requests_failed, 1);
    assert_eq!(stats.requests_successful, 0);
}

#[test]
fn deadline_hit_yields_504() {
    let mut fwd = ProxyForwarder::new(String::from("http://127.0.0.1:3000"), 1_000);
    fwd.begin_request("GET", "/slow");
    let (frame, _ev) = fwd.complete_request("c", "GET", "/slow", None, 1_000, false);
    match frame {
        Some(TunnelFrame::HttpResponse { id, status, status_text, body, .. }) => {
            assert_eq!(id, "c");
            assert_eq!(status, 504);
            assert_eq!(status_text, "Gateway Timeout");
            assert_eq!(
                body,
                Some(b"Local server did not respond within 1000 ms".to_vec()),
                "the 504 body names the configured timeout"
            );
        }
        other => panic!("unexpected frame: {:?}", other),
    }
    assert_eq!(fwd.get_stats().requests_failed, 1);
}

#[test]
fn numbers_render_in_decimal() {
    assert_eq!(u64_to_decimal(0), "0");
    assert_eq!(u64_to_decimal(7), "7");
    assert_eq!(u64_to_decimal(30_000), "30000");
    assert_eq!(u64_to_decimal(u64::MAX), "18446744073709551615");
}

#[test]
fn admission_follows_the_connection_cap() {
    assert!(admission_allows(0, 1));
    assert!(!admission_allows(1, 1));
    assert!(admission_allows(1, 2));
    assert!(!admission_allows(2, 2));
    assert!(!admission_allows(5, 2));
}

#[test]
fn zero_timeout_yields_504_even_on_success() {
    let mut fwd = ProxyForwarder::new(String::from("http://127.0.0.1:3000"), 0);
    fwd.begin_request("GET", "/ping");
    let (frame, _ev) = fwd.complete_request("d", "GET", "/ping", Some(ok_response(200, b"pong")), 0, false);
    match frame {
        Some(TunnelFrame::HttpResponse { status, body, .. }) => {
            assert_eq!(status, 504);
            assert_eq!(body, Some(b"Local server did not respond within 0 ms".to_vec()));
        }
        other => panic!("unexpected frame: {:?}", other),
    }
}

#[test]
fn remote_cancel_emits_no_frame() {
    let mut fwd = ProxyForwarder::new(String::from("http://127.0.0.1:3000"), 30_000);
    fwd.begin_request("GET", "/ping");
    let (frame, ev) = fwd.complete_request("e", "GET", "/ping", Some(ok_response(200, b"pong")), 5, true);
    assert!(frame.is_none());
    assert!(ev.is_none());
    let stats = fwd.get_stats();
    assert_eq!(stats.requests_processed, 1);
    assert_eq!(stats.requests_failed, 1);
    assert_eq!(stats.active_requests, 0);
}

#[test]
fn error_classification_variants() {
    let cases: Vec<(LocalError, u16)> = vec![
        (LocalError::Connection(String::from("tcp open failed")), 503),
        (LocalError::Protocol(String::from("bad chunk header")), 502),
        (LocalError::BodyIo(String::from("read aborted")), 502),
        (LocalError::Other(String::from("Connection reset by peer")), 503),
        (LocalError::Other(String::from("operation REFUSED by peer")), 503),
        (LocalError::Other(String::from("host is Unreachable")), 503),
        (LocalError::Other(String::from("Network down")), 503),
        (LocalError::Other(String::from("strange failure")), 502),
    ];
    for (err, expected) in cases {
        let mut fwd = ProxyForwarder::new(String::from("http://127.0.0.1:3000"), 30_000);
        fwd.begin_request("GET", "/");
        let msg = format!("{:?}", err);
        let (frame, _ev) = fwd.complete_request("f", "GET", "/", Some(LocalCallResult::Failed(err)), 2, false);
        match frame {
            Some(TunnelFrame::HttpResponse { status, .. }) => {
                assert_eq!(status, expected, "classifying {}", msg)
            }
            other => panic!("unexpected frame: {:?}", other),
        }
    }
}

#[test]
fn counters_stay_consistent_over_mixed_outcomes() {
    let mut fwd = ProxyForwarder::new(String::from("http://127.0.0.1:3000"), 30_000);
    for i in 0..10u32 {
        fwd.begin_request("GET", "/n");
        let result = if i % 3 == 0 {
            Some(ok_response(200, b"xy"))
        } else if i % 3 == 1 {
            Some(LocalCallResult::Failed(LocalError::Protocol(String::from("bad"))))
        } else {
            None
        };
        let elapsed = if i % 3 == 2 { 40_000 } else { 7 };
        fwd.complete_request("id", "GET", "/n", result, elapsed, false);
        let stats = fwd.get_stats();
        assert_eq!(
            stats.requests_successful + stats.requests_failed,
            stats.requests_processed
        );
    }
    let stats = fwd.get_stats();
    assert_eq!(stats.requests_processed, 10);
    assert_eq!(stats.requests_successful, 4);
    assert_eq!(stats.requests_failed, 6);
    assert_eq!(stats.bytes_forwarded, 8);
    assert_eq!(stats.active_requests, 0);
}

#[test]
fn average_response_time_is_cumulative_mean() {
    let mut fwd = ProxyForwarder::new(String::from("http://127.0.0.1:3000"), 30_000);
    for elapsed in [10u64, 20, 60] {
        fwd.begin_request("GET", "/t");
        fwd.complete_request("g", "GET", "/t", Some(ok_response(200, b"")), elapsed, false);
    }
    assert_eq!(fwd.get_stats().total_response_time_ms, 90);
    assert_eq!(fwd.get_stats().average_response_time_ms(), 30);
}

#[test]
fn detailed_stats_report_success_rate() {
    let mut fwd = ProxyForwarder::new(String::from("http://127.0.0.1:9999"), 5_000);
    let detailed = fwd.get_detailed_stats();
    assert_eq!(detailed.success_rate_percent, 0);
    assert_eq!(detailed.local_server_url, "http://127.0.0.1:9999");
    assert_eq!(detailed.timeout_ms, 5_000);

    fwd.begin_request("GET", "/a");
    fwd.complete_request("h", "GET", "/a", Some(ok_response(200, b"")), 1, false);
    fwd.begin_request("GET", "/b");
    fwd.complete_request(
        "i",
        "GET",
        "/b",
        Some(LocalCallResult::Failed(LocalError::Protocol(String::from("bad")))),
        1,
        false,
    );
    let detailed = fwd.get_detailed_stats();
    assert_eq!(detailed.basic_stats.requests_processed, 2);
    assert_eq!(detailed.success_rate_percent, 50);
}
