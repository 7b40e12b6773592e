//! The request forwarder: classify what the local origin call yielded,
//! select the one outbound frame owed for the request, and keep the
//! statistics consistent.
use vstd::prelude::*;
use vstd::string::StrSliceExecFns;
use vstd::string::StringExecFns;
use vstd::utf8::encode_utf8;
use crate::text::{chars_contain, contains_seq, dec_spec, lower_chars, lower_seq, u64_to_decimal};
use crate::frame::{
    body_view, header_views, kw_connection, response_to_frame, strip_hop_spec, LocalResponse,
    TunnelFrame,
};
use crate::status::reason_phrase_spec;
use crate::status::reason_phrase;
use crate::DashboardEvent;

verus! {

/// Why a local origin call failed, classified at the lowest level.
#[derive(Debug, Clone)]
pub enum LocalError {
    /// Connect refused, DNS failure, host unreachable, connection reset.
    Connection(String),
    /// Malformed HTTP response, invalid framing.
    Protocol(String),
    /// Network error during body transfer after the headers arrived.
    BodyIo(String),
    /// Anything else, with its textual form.
    Other(String),
}

/// What one local origin call yielded, when it finished at all.
#[derive(Debug, Clone)]
pub enum LocalCallResult {
    Response(LocalResponse),
    Failed(LocalError),
}

pub open spec fn kw_refused() -> Seq<char> {
    seq!['r', 'e', 'f', 'u', 's', 'e', 'd']
}

pub open spec fn kw_unreachable() -> Seq<char> {
    seq!['u', 'n', 'r', 'e', 'a', 'c', 'h', 'a', 'b', 'l', 'e']
}

pub open spec fn kw_network() -> Seq<char> {
    seq!['n', 'e', 't', 'w', 'o', 'r', 'k']
}

/// The fallback heuristic for untyped errors: the lower-cased message names a
/// connection-level failure.
pub open spec fn message_indicates_connection(m: Seq<char>) -> bool {
    let l = lower_seq(m);
    ||| contains_seq(l, kw_connection())
    ||| contains_seq(l, kw_refused())
    ||| contains_seq(l, kw_unreachable())
    ||| contains_seq(l, kw_network())
}

/// A failure that means the local origin is unreachable (answered with 503):
/// either typed as such, or an untyped error whose message indicates one.
pub open spec fn is_connection_failure(e: LocalError) -> bool {
    match e {
        LocalError::Connection(_) => true,
        LocalError::Protocol(_) => false,
        LocalError::BodyIo(_) => false,
        LocalError::Other(m) => message_indicates_connection(m@),
    }
}

/// The textual form of a local error.
pub open spec fn local_error_message(e: LocalError) -> Seq<char> {
    match e {
        LocalError::Connection(m) => m@,
        LocalError::Protocol(m) => m@,
        LocalError::BodyIo(m) => m@,
        LocalError::Other(m) => m@,
    }
}

/// Whether a failure counts as a connection-level one, executable form.
pub fn local_error_is_connection(e: &LocalError) -> (r: bool)
    ensures
        r == is_connection_failure(*e),
{
    match e {
        LocalError::Connection(_) => true,
        LocalError::Protocol(_) => false,
        LocalError::BodyIo(_) => false,
        LocalError::Other(m) => {
            let l = lower_chars(m.as_str());
            let conn: Vec<char> = vec!['c', 'o', 'n', 'n', 'e', 'c', 't', 'i', 'o', 'n'];
            let refu: Vec<char> = vec!['r', 'e', 'f', 'u', 's', 'e', 'd'];
            let unre: Vec<char> = vec![
                'u', 'n', 'r', 'e', 'a', 'c', 'h', 'a', 'b', 'l', 'e',
            ];
            let netw: Vec<char> = vec!['n', 'e', 't', 'w', 'o', 'r', 'k'];
            proof {
                assert(conn@ =~= kw_connection());
                assert(refu@ =~= kw_refused());
                assert(unre@ =~= kw_unreachable());
                assert(netw@ =~= kw_network());
            }
            if chars_contain(&l, &conn) {
                return true;
            }
            if chars_contain(&l, &refu) {
                return true;
            }
            if chars_contain(&l, &unre) {
                return true;
            }
            chars_contain(&l, &netw)
        },
    }
}

/// The status of the one outbound frame for a request, given what the local
/// call yielded (`None` when it never finished inside the deadline), the
/// elapsed time and the configured timeout. The deadline wraps the whole
/// call, so a deadline hit wins over any late result.
pub open spec fn outcome_status(
    result: Option<LocalCallResult>,
    elapsed_ms: u64,
    timeout_ms: u64,
) -> u16 {
    if elapsed_ms >= timeout_ms {
        504u16
    } else {
        match result {
            Some(LocalCallResult::Response(resp)) => resp.status,
            Some(LocalCallResult::Failed(e)) => if is_connection_failure(e) {
                503u16
            } else {
                502u16
            },
            None => 504u16,
        }
    }
}

/// The request succeeded: the local origin answered inside the deadline.
pub open spec fn outcome_is_success(
    result: Option<LocalCallResult>,
    elapsed_ms: u64,
    timeout_ms: u64,
) -> bool {
    elapsed_ms < timeout_ms && result matches Some(LocalCallResult::Response(_))
}

/// The body bytes of a response frame, nothing for any other frame.
pub open spec fn response_frame_body(f: TunnelFrame) -> Option<Seq<u8>> {
    match f {
        TunnelFrame::HttpResponse { body, .. } => body_view(body),
        _ => None,
    }
}

/// The message of an error event, nothing for any other event.
pub open spec fn error_event_text(ev: Option<DashboardEvent>) -> Option<Seq<char>> {
    match ev {
        Some(DashboardEvent::Error(m)) => Some(m@),
        _ => None,
    }
}

/// The body of a 504 response: it names the configured timeout.
pub open spec fn timeout_message(timeout_ms: u64) -> Seq<char> {
    "Local server did not respond within "@ + dec_spec(timeout_ms as nat) + " ms"@
}

/// With a zero timeout every request settles as 504 Gateway Timeout,
/// whatever the local call yielded and however fast it was.
pub proof fn lemma_zero_timeout_yields_504(result: Option<LocalCallResult>, elapsed_ms: u64)
    ensures
        outcome_status(result, elapsed_ms, 0) == 504,
{
}

/// The admission rule: a new request may start only while fewer than
/// `max_connections` requests are in flight. At the cap the consumer of the
/// inbound stream blocks instead, which propagates back-pressure to the wire
/// reader; with a cap of one, requests are handled strictly one after the
/// other.
pub fn admission_allows(active_requests: u64, max_connections: u64) -> (r: bool)
    ensures
        r == (active_requests < max_connections),
{
    active_requests < max_connections
}

/// The headers of every synthetic error response.
pub open spec fn synthetic_headers() -> Seq<(Seq<char>, Seq<char>)> {
    seq![
        ("content-type"@, "text/plain; charset=utf-8"@),
        ("cache-control"@, "no-cache"@),
    ]
}

/// The byte length of an optional body.
pub open spec fn body_len(b: Option<Vec<u8>>) -> nat {
    match b {
        Some(v) => v@.len(),
        None => 0,
    }
}

/// Build one synthetic error response frame: the given status with its
/// standard reason phrase, plain-text headers, and the message as the body.
pub fn synthetic_response(request_id: &str, status: u16, message: &str) -> (f: TunnelFrame)
    ensures
        ({
            &&& f matches TunnelFrame::HttpResponse {
                id,
                status: fstatus,
                status_text,
                headers,
                body,
            }
            &&& id@ == request_id@
            &&& fstatus == status
            &&& status_text@ == reason_phrase_spec(status)
            &&& header_views(headers@) == synthetic_headers()
            &&& body_view(body) == Some(encode_utf8(message@))
        }),
{
    let mut headers: Vec<(String, String)> = Vec::new();
    headers.push(
        (String::from_str("content-type"), String::from_str("text/plain; charset=utf-8")),
    );
    headers.push((String::from_str("cache-control"), String::from_str("no-cache")));
    proof {
        assert(header_views(headers@) =~= synthetic_headers());
    }
    let body = message.as_bytes_vec();
    TunnelFrame::HttpResponse {
        id: String::from_str(request_id),
        status,
        status_text: String::from_str(reason_phrase(status)),
        headers,
        body: Some(body),
    }
}

/// Concatenate two strings.
pub fn concat_str(prefix: &str, rest: &str) -> (r: String)
    ensures
        r@ == prefix@ + rest@,
{
    let mut r = String::from_str(prefix);
    r.append(rest);
    r
}

/// Forwarder statistics. Invariant (`wf`): each processed request was counted
/// as exactly one of successful or failed.
#[derive(Debug, Clone, Copy)]
pub struct ProxyStats {
    pub requests_processed: u64,
    pub requests_successful: u64,
    pub requests_failed: u64,
    pub bytes_forwarded: u64,
    pub total_response_time_ms: u64,
    pub active_requests: u64,
}

impl ProxyStats {
    pub open spec fn wf(self) -> bool {
        self.requests_successful + self.requests_failed == self.requests_processed
    }

    pub fn new() -> (r: ProxyStats)
        ensures
            r.requests_processed == 0,
            r.requests_successful == 0,
            r.requests_failed == 0,
            r.bytes_forwarded == 0,
            r.total_response_time_ms == 0,
            r.active_requests == 0,
            r.wf(),
    {
        ProxyStats {
            requests_processed: 0,
            requests_successful: 0,
            requests_failed: 0,
            bytes_forwarded: 0,
            total_response_time_ms: 0,
            active_requests: 0,
        }
    }

    /// The rolling mean response time: the cumulative time over the number of
    /// processed requests, zero before the first one.
    pub fn average_response_time_ms(&self) -> (r: u64)
        ensures
            r == if self.requests_processed == 0 {
                0
            } else {
                self.total_response_time_ms as int / self.requests_processed as int
            },
    {
        if self.requests_processed == 0 {
            0
        } else {
            self.total_response_time_ms / self.requests_processed
        }
    }
}

/// Forwarder statistics together with derived metrics and the forwarder's
/// configuration.
#[derive(Debug, Clone)]
pub struct DetailedProxyStats {
    pub basic_stats: ProxyStats,
    pub success_rate_percent: u64,
    pub local_server_url: String,
    pub timeout_ms: u64,
}

/// The request forwarder: holds the configured local origin, the per-request
/// deadline, and the statistics it maintains.
#[derive(Debug, Clone)]
pub struct ProxyForwarder {
    pub stats: ProxyStats,
    pub local_url: String,
    pub timeout_ms: u64,
}

impl ProxyForwarder {
    /// A fresh forwarder for the given local origin and deadline.
    pub fn new(local_url: String, timeout_ms: u64) -> (r: ProxyForwarder)
        ensures
            r.stats.requests_processed == 0,
            r.stats.requests_successful == 0,
            r.stats.requests_failed == 0,
            r.stats.bytes_forwarded == 0,
            r.stats.total_response_time_ms == 0,
            r.stats.active_requests == 0,
            r.local_url@ == local_url@,
            r.timeout_ms == timeout_ms,
            r.stats.wf(),
    {
        ProxyForwarder { stats: ProxyStats::new(), local_url, timeout_ms }
    }

    /// A snapshot of the statistics.
    pub fn get_stats(&self) -> (r: ProxyStats)
        ensures
            r == self.stats,
    {
        self.stats
    }

    /// The statistics with the success rate (in whole percent) and the
    /// forwarder's configuration.
    pub fn get_detailed_stats(&self) -> (r: DetailedProxyStats)
        requires
            self.stats.wf(),
        ensures
            r.basic_stats == self.stats,
            r.success_rate_percent == if self.stats.requests_processed == 0 {
                0
            } else {
                self.stats.requests_successful * 100 / self.stats.requests_processed as int
            },
            r.local_server_url@ == self.local_url@,
            r.timeout_ms == self.timeout_ms,
    {
        let success_rate_percent: u64 = if self.stats.requests_processed == 0 {
            0
        } else {
            let s = self.stats.requests_successful as u128;
            let p = self.stats.requests_processed as u128;
            assert((s as int) * 100 / (p as int) <= 100) by (nonlinear_arith)
                requires
                    0 < (p as int) <= u64::MAX,
                    (s as int) <= (p as int),
            ;
            (s * 100 / p) as u64
        };
        DetailedProxyStats {
            basic_stats: self.stats,
            success_rate_percent,
            local_server_url: self.local_url.clone(),
            timeout_ms: self.timeout_ms,
        }
    }

    /// Admit one inbound request: raise the in-flight gauge and announce the
    /// request to the dashboard as "METHOD path".
    pub fn begin_request(&mut self, method: &str, path: &str) -> (ev: DashboardEvent)
        requires
            old(self).stats.active_requests < u64::MAX,
        ensures
            final(self).stats.active_requests == old(self).stats.active_requests + 1,
            final(self).stats.requests_processed == old(self).stats.requests_processed,
            final(self).stats.requests_successful == old(self).stats.requests_successful,
            final(self).stats.requests_failed == old(self).stats.requests_failed,
            final(self).stats.bytes_forwarded == old(self).stats.bytes_forwarded,
            final(self).stats.total_response_time_ms == old(self).stats.total_response_time_ms,
            final(self).local_url == old(self).local_url,
            final(self).timeout_ms == old(self).timeout_ms,
            old(self).stats.wf() ==> final(self).stats.wf(),
            ev matches DashboardEvent::RequestForwarded(s) && s@ == method@ + " "@ + path@,
    {
        self.stats.active_requests = self.stats.active_requests + 1;
        let mut summary = String::from_str(method);
        summary.append(" ");
        summary.append(path);
        DashboardEvent::RequestForwarded(summary)
    }

    /// Settle one admitted request: lower the in-flight gauge, count the
    /// outcome, and produce the one outbound frame owed for the request — or
    /// none at all when the remote cancelled it.
    ///
    /// `result` is what the local call yielded, `None` when it never finished
    /// inside the deadline; the deadline wraps the whole call, so a deadline
    /// hit (`elapsed_ms >= timeout_ms`) wins over any late result. With a
    /// zero timeout every request therefore settles as 504 Gateway Timeout.
    pub fn complete_request(
        &mut self,
        request_id: &str,
        method: &str,
        path: &str,
        result: Option<LocalCallResult>,
        elapsed_ms: u64,
        cancelled: bool,
    ) -> (r: (Option<TunnelFrame>, Option<DashboardEvent>))
        requires
            old(self).stats.wf(),
            old(self).stats.active_requests > 0,
            old(self).stats.requests_processed < u64::MAX,
            result is None ==> elapsed_ms >= old(self).timeout_ms,
        ensures
            final(self).stats.wf(),
            final(self).local_url == old(self).local_url,
            final(self).timeout_ms == old(self).timeout_ms,
            final(self).stats.active_requests == old(self).stats.active_requests - 1,
            final(self).stats.requests_processed == old(self).stats.requests_processed + 1,
            final(self).stats.total_response_time_ms == if old(
                self,
            ).stats.total_response_time_ms + elapsed_ms <= u64::MAX {
                old(self).stats.total_response_time_ms + elapsed_ms
            } else {
                u64::MAX as int
            },
            // Exactly one outbound frame per accepted request, none after a
            // remote cancel.
            cancelled <==> r.0 is None,
            cancelled ==> final(self).stats.requests_failed == old(self).stats.requests_failed
                + 1 && final(self).stats.requests_successful == old(
                self,
            ).stats.requests_successful && final(self).stats.bytes_forwarded == old(
                self,
            ).stats.bytes_forwarded && r.1 is None,
            !cancelled ==> ({
                let st = outcome_status(result, elapsed_ms, old(self).timeout_ms);
                &&& r.0 matches Some(f)
                &&& f matches TunnelFrame::HttpResponse {
                    id,
                    status,
                    status_text,
                    headers,
                    body,
                }
                &&& id@ == request_id@
                &&& status == st
                &&& status_text@ == reason_phrase_spec(st)
            }),
            !cancelled && outcome_is_success(result, elapsed_ms, old(self).timeout_ms) ==> ({
                let resp = result.unwrap()->Response_0;
                &&& final(self).stats.requests_successful == old(self).stats.requests_successful
                    + 1
                &&& final(self).stats.requests_failed == old(self).stats.requests_failed
                &&& final(self).stats.bytes_forwarded == if old(self).stats.bytes_forwarded
                    + body_len(resp.body) <= u64::MAX {
                    old(self).stats.bytes_forwarded + body_len(resp.body)
                } else {
                    u64::MAX as int
                }
                &&& r.0 matches Some(TunnelFrame::HttpResponse {
                    id,
                    status,
                    status_text,
                    headers,
                    body,
                })
                &&& header_views(headers@) == strip_hop_spec(header_views(resp.headers@))
                &&& body_view(body) == body_view(resp.body)
                &&& r.1 matches Some(DashboardEvent::ResponseReceived(st, n)) && st == resp.status
                    && n == body_len(resp.body)
            }),
            !cancelled && !outcome_is_success(result, elapsed_ms, old(self).timeout_ms) ==> ({
                &&& final(self).stats.requests_failed == old(self).stats.requests_failed + 1
                &&& final(self).stats.requests_successful == old(self).stats.requests_successful
                &&& final(self).stats.bytes_forwarded == old(self).stats.bytes_forwarded
                &&& r.0 matches Some(TunnelFrame::HttpResponse {
                    id,
                    status,
                    status_text,
                    headers,
                    body,
                })
                &&& header_views(headers@) == synthetic_headers()
                &&& r.1 matches Some(DashboardEvent::Error(_))
            }),
            (!cancelled && elapsed_ms >= old(self).timeout_ms) ==> ({
                &&& response_frame_body(r.0.unwrap()) == Some(
                    encode_utf8(timeout_message(old(self).timeout_ms)),
                )
                &&& error_event_text(r.1) == Some(
                    "Request timeout: "@ + method@ + " "@ + path@,
                )
            }),
            result matches Some(LocalCallResult::Failed(e)) ==> ({
                let relevant = !cancelled && elapsed_ms < old(self).timeout_ms;
                let msg = local_error_message(e);
                &&& (relevant && is_connection_failure(e)) ==> response_frame_body(r.0.unwrap())
                    == Some(encode_utf8("Local server is unreachable: "@ + msg))
                    && error_event_text(r.1) == Some("Local server unreachable: "@ + msg)
                &&& (relevant && !is_connection_failure(e)) ==> response_frame_body(
                    r.0.unwrap(),
                ) == Some(encode_utf8("Local server error: "@ + msg)) && error_event_text(r.1)
                    == Some("Local server error: "@ + msg)
            }),
    {
        self.stats.active_requests = self.stats.active_requests - 1;
        self.stats.requests_processed = self.stats.requests_processed + 1;
        if elapsed_ms <= u64::MAX - self.stats.total_response_time_ms {
            self.stats.total_response_time_ms = self.stats.total_response_time_ms + elapsed_ms;
        } else {
            self.stats.total_response_time_ms = u64::MAX;
        }
        if cancelled {
            self.stats.requests_failed = self.stats.requests_failed + 1;
            return (None, None);
        }
        if elapsed_ms >= self.timeout_ms {
            self.stats.requests_failed = self.stats.requests_failed + 1;
            let mut text = String::from_str("Local server did not respond within ");
            text.append(u64_to_decimal(self.timeout_ms).as_str());
            text.append(" ms");
            let frame = synthetic_response(request_id, 504, text.as_str());
            let mut what = String::from_str("Request timeout: ");
            what.append(method);
            what.append(" ");
            what.append(path);
            return (Some(frame), Some(DashboardEvent::Error(what)));
        }
        match result {
            Some(LocalCallResult::Response(resp)) => {
                self.stats.requests_successful = self.stats.requests_successful + 1;
                let n = match &resp.body {
                    Some(b) => b.len(),
                    None => 0,
                };
                let nb = n as u64;
                if nb <= u64::MAX - self.stats.bytes_forwarded {
                    self.stats.bytes_forwarded = self.stats.bytes_forwarded + nb;
                } else {
                    self.stats.bytes_forwarded = u64::MAX;
                }
                let frame = response_to_frame(request_id, &resp);
                (Some(frame), Some(DashboardEvent::ResponseReceived(resp.status, n)))
            },
            Some(LocalCallResult::Failed(e)) => {
                self.stats.requests_failed = self.stats.requests_failed + 1;
                if local_error_is_connection(&e) {
                    let msg = local_error_text(&e);
                    let body = concat_str("Local server is unreachable: ", msg.as_str());
                    let frame = synthetic_response(request_id, 503, body.as_str());
                    let ev = concat_str("Local server unreachable: ", msg.as_str());
                    (Some(frame), Some(DashboardEvent::Error(ev)))
                } else {
                    let msg = local_error_text(&e);
                    let body = concat_str("Local server error: ", msg.as_str());
                    let frame = synthetic_response(request_id, 502, body.as_str());
                    let ev = concat_str("Local server error: ", msg.as_str());
                    (Some(frame), Some(DashboardEvent::Error(ev)))
                }
            },
            None => {
                // A call that never finished has used the whole deadline, so
                // the precondition puts it in the branch above.
                proof {
                    assert(false);
                }
                (None, None)
            },
        }
    }
}

/// The textual form of a local error, executable form.
pub fn local_error_text(e: &LocalError) -> (r: String)
    ensures
        r@ == local_error_message(*e),
{
    match e {
        LocalError::Connection(m) => m.clone(),
        LocalError::Protocol(m) => m.clone(),
        LocalError::BodyIo(m) => m.clone(),
        LocalError::Other(m) => m.clone(),
    }
}

} // verus!
