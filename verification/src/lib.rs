//! Core logic of a tunneling agent: a client that keeps one persistent
//! control-channel session to a remote proxy, replays each inbound HTTP
//! request against a local origin server, and answers with exactly one
//! response frame per request.
//!
//! This crate holds the verified decision logic: frame routing, the session
//! state machine with its reconnection policy, URL path normalization, the
//! per-request forwarding outcome (status selection, synthetic error
//! responses, statistics), and header hygiene. The asynchronous runtime,
//! sockets and timers live outside the crate and drive these functions.
use vstd::prelude::*;

pub mod forwarder;
pub mod frame;
pub mod inflight;
pub mod session;
pub mod status;
pub mod text;
pub mod urlpath;
pub mod wire;

verus! {

/// Connection status of the control channel, as shown to observers.
#[derive(Debug, Clone)]
pub enum ConnectionStatus {
    Connecting,
    Connected,
    Disconnected,
    Reconnecting,
    Error(String),
}

/// Application-wide statistics, kept by the coordination layer.
///
/// Invariant (`wf`): every processed request was counted as exactly one of
/// successful or failed, so `requests_successful + requests_failed ==
/// requests_processed` after every completed request.
#[derive(Debug, Clone)]
pub struct AppStats {
    pub requests_processed: u64,
    pub requests_successful: u64,
    pub requests_failed: u64,
    pub bytes_forwarded: u64,
    pub uptime_seconds: u64,
    pub websocket_reconnects: u64,
    pub connection_status: ConnectionStatus,
}

/// Events broadcast to the dashboard collaborator.
#[derive(Debug, Clone)]
pub enum DashboardEvent {
    RequestForwarded(String),
    ResponseReceived(u16, usize),
    Error(String),
    ConnectionStatus(ConnectionStatus),
    Statistics(AppStats),
}

impl AppStats {
    /// The counter invariant: each completed request is successful or failed.
    pub open spec fn wf(self) -> bool {
        self.requests_successful + self.requests_failed == self.requests_processed
    }

    /// Fresh statistics: all counters zero, channel still connecting.
    pub fn new() -> (r: AppStats)
        ensures
            r.requests_processed == 0,
            r.requests_successful == 0,
            r.requests_failed == 0,
            r.bytes_forwarded == 0,
            r.uptime_seconds == 0,
            r.websocket_reconnects == 0,
            r.connection_status is Connecting,
            r.wf(),
    {
        AppStats {
            requests_processed: 0,
            requests_successful: 0,
            requests_failed: 0,
            bytes_forwarded: 0,
            uptime_seconds: 0,
            websocket_reconnects: 0,
            connection_status: ConnectionStatus::Connecting,
        }
    }

    /// Count one request that completed with a response from the local origin.
    pub fn record_success(&mut self, body_bytes: u64)
        requires
            old(self).wf(),
            old(self).requests_processed < u64::MAX,
        ensures
            final(self).requests_processed == old(self).requests_processed + 1,
            final(self).requests_successful == old(self).requests_successful + 1,
            final(self).requests_failed == old(self).requests_failed,
            final(self).bytes_forwarded == if old(self).bytes_forwarded + body_bytes
                <= u64::MAX { old(self).bytes_forwarded + body_bytes } else { u64::MAX as int },
            final(self).uptime_seconds == old(self).uptime_seconds,
            final(self).websocket_reconnects == old(self).websocket_reconnects,
            final(self).connection_status == old(self).connection_status,
            final(self).wf(),
    {
        self.requests_processed = self.requests_processed + 1;
        self.requests_successful = self.requests_successful + 1;
        if body_bytes <= u64::MAX - self.bytes_forwarded {
            self.bytes_forwarded = self.bytes_forwarded + body_bytes;
        } else {
            self.bytes_forwarded = u64::MAX;
        }
    }

    /// Count one request that ended in a synthetic error response or a cancel.
    pub fn record_failure(&mut self)
        requires
            old(self).wf(),
            old(self).requests_processed < u64::MAX,
        ensures
            final(self).requests_processed == old(self).requests_processed + 1,
            final(self).requests_successful == old(self).requests_successful,
            final(self).requests_failed == old(self).requests_failed + 1,
            final(self).bytes_forwarded == old(self).bytes_forwarded,
            final(self).uptime_seconds == old(self).uptime_seconds,
            final(self).websocket_reconnects == old(self).websocket_reconnects,
            final(self).connection_status == old(self).connection_status,
            final(self).wf(),
    {
        self.requests_processed = self.requests_processed + 1;
        self.requests_failed = self.requests_failed + 1;
    }

    /// Count one reconnection of the control channel. The counter only grows.
    pub fn record_reconnect(&mut self)
        requires
            old(self).websocket_reconnects < u64::MAX,
        ensures
            final(self).websocket_reconnects == old(self).websocket_reconnects + 1,
            final(self).websocket_reconnects > old(self).websocket_reconnects,
            final(self).requests_processed == old(self).requests_processed,
            final(self).requests_successful == old(self).requests_successful,
            final(self).requests_failed == old(self).requests_failed,
            final(self).bytes_forwarded == old(self).bytes_forwarded,
            final(self).uptime_seconds == old(self).uptime_seconds,
            final(self).connection_status == old(self).connection_status,
            old(self).wf() ==> final(self).wf(),
    {
        self.websocket_reconnects = self.websocket_reconnects + 1;
    }

    /// Publish a new connection status.
    pub fn set_connection_status(&mut self, status: ConnectionStatus)
        ensures
            final(self).connection_status == status,
            final(self).requests_processed == old(self).requests_processed,
            final(self).requests_successful == old(self).requests_successful,
            final(self).requests_failed == old(self).requests_failed,
            final(self).bytes_forwarded == old(self).bytes_forwarded,
            final(self).uptime_seconds == old(self).uptime_seconds,
            final(self).websocket_reconnects == old(self).websocket_reconnects,
            old(self).wf() ==> final(self).wf(),
    {
        self.connection_status = status;
    }

    /// Refresh the uptime gauge from the clock owned by the caller.
    pub fn set_uptime(&mut self, seconds: u64)
        ensures
            final(self).uptime_seconds == seconds,
            final(self).requests_processed == old(self).requests_processed,
            final(self).requests_successful == old(self).requests_successful,
            final(self).requests_failed == old(self).requests_failed,
            final(self).bytes_forwarded == old(self).bytes_forwarded,
            final(self).websocket_reconnects == old(self).websocket_reconnects,
            final(self).connection_status == old(self).connection_status,
            old(self).wf() ==> final(self).wf(),
    {
        self.uptime_seconds = seconds;
    }
}

} // verus!
