//! The control-channel session state machine and its reconnection policy.
//!
//! The runtime that owns the socket reports what happened (connect result,
//! authentication verdict, transport failure, elapsed backoff, shutdown);
//! this module decides the next state, what to do, and how the reconnect
//! counter moves. Backoff is exponential with base 1 s, factor 2 and cap
//! 30 s; the caller supplies the jitter draw.
use vstd::prelude::*;
use crate::ConnectionStatus;

verus! {

/// The state of the control-channel session.
#[derive(Debug, Clone, Copy, PartialEq, Eq, Structural)]
pub enum SessionState {
    /// Opening the transport connection.
    Connecting,
    /// Transport is up; the authentication frame is out, its answer pending.
    Authenticating,
    /// Authenticated; frames flow.
    Connected,
    /// The session died; waiting out the backoff before connecting again.
    Reconnecting,
    /// Terminal: fatal authentication failure, exhausted reconnection
    /// attempts, or an ordered shutdown.
    Disconnected,
}

/// What the runtime observed on the session.
#[derive(Debug, Clone, Copy, PartialEq, Eq, Structural)]
pub enum SessionEvent {
    /// The transport connected.
    ConnectSucceeded,
    /// The transport could not connect.
    ConnectFailed,
    /// The authentication was acknowledged as good.
    AuthAccepted,
    /// The authentication was rejected; the server marked whether retrying
    /// may help.
    AuthRejected { retriable: bool },
    /// A read or write failed, the peer closed, or the liveness deadline
    /// passed.
    TransportFailed,
    /// The backoff delay has elapsed.
    BackoffElapsed,
    /// An ordered shutdown.
    ShutdownRequested,
}

/// What the runtime must do after a step.
#[derive(Debug, Clone, Copy, PartialEq, Eq, Structural)]
pub enum SessionAction {
    /// Open the transport.
    Connect,
    /// Send the authentication frame.
    SendAuth,
    /// Sleep for the backoff delay, then report `BackoffElapsed`.
    Backoff,
    /// Stop: the session is over. `fatal` marks an unretriable
    /// authentication failure, which ends the whole process with failure.
    Stop { fatal: bool },
    /// Nothing to do.
    Continue,
}

/// One session of the control channel: its state, the consecutive failures
/// that drive the backoff, the total reconnect count, and the configured
/// attempt limit (zero meaning unlimited).
#[derive(Debug, Clone, Copy)]
pub struct Session {
    pub state: SessionState,
    pub consecutive_failures: u64,
    pub reconnects: u64,
    pub max_reconnects: u64,
}

/// A failure event: one that tears the session down and, when attempts
/// remain, sends it through `Reconnecting`.
pub open spec fn is_failure_event(e: SessionEvent) -> bool {
    match e {
        SessionEvent::ConnectFailed => true,
        SessionEvent::TransportFailed => true,
        SessionEvent::AuthRejected { retriable } => retriable,
        _ => false,
    }
}

/// Attempts are exhausted when a limit is set and as many consecutive
/// failures have happened.
pub open spec fn attempts_exhausted(s: Session) -> bool {
    s.max_reconnects != 0 && s.consecutive_failures >= s.max_reconnects
}

/// The next state of the session machine.
pub open spec fn next_state(s: Session, e: SessionEvent) -> SessionState {
    if s.state is Disconnected {
        SessionState::Disconnected
    } else if e is ShutdownRequested {
        SessionState::Disconnected
    } else if e matches SessionEvent::AuthRejected { retriable: false } {
        SessionState::Disconnected
    } else if is_failure_event(e) {
        if attempts_exhausted(s) {
            SessionState::Disconnected
        } else {
            SessionState::Reconnecting
        }
    } else {
        match (s.state, e) {
            (SessionState::Connecting, SessionEvent::ConnectSucceeded) =>
                SessionState::Authenticating,
            (SessionState::Authenticating, SessionEvent::AuthAccepted) => SessionState::Connected,
            (SessionState::Reconnecting, SessionEvent::BackoffElapsed) => SessionState::Connecting,
            _ => s.state,
        }
    }
}

/// The consecutive-failure counter after a step: reset by an accepted
/// authentication, raised by each failure that sends the session through
/// `Reconnecting`, untouched otherwise.
pub open spec fn next_failures(s: Session, e: SessionEvent) -> u64 {
    if s.state is Disconnected {
        s.consecutive_failures
    } else if e is AuthAccepted {
        0u64
    } else if e matches SessionEvent::AuthRejected { retriable: false } {
        s.consecutive_failures
    } else if is_failure_event(e) && !attempts_exhausted(s) {
        (s.consecutive_failures + 1) as u64
    } else {
        s.consecutive_failures
    }
}

/// The reconnect counter counts exactly the transitions out of `Connected`
/// or `Authenticating` into `Reconnecting`.
pub open spec fn counts_reconnect(s: Session, e: SessionEvent) -> bool {
    &&& (s.state is Connected || s.state is Authenticating)
    &&& next_state(s, e) is Reconnecting
}

/// The action owed to the runtime after one step: backoff on entering
/// `Reconnecting`, a fresh connect on leaving it, the authentication frame
/// once the transport is up, a stop on reaching `Disconnected`, and nothing
/// otherwise.
pub open spec fn step_action(s: Session, e: SessionEvent) -> SessionAction {
    if s.state is Disconnected {
        SessionAction::Continue
    } else {
        match e {
            SessionEvent::ShutdownRequested => SessionAction::Stop { fatal: false },
            SessionEvent::AuthRejected { retriable: false } => SessionAction::Stop { fatal: true },
            SessionEvent::ConnectFailed | SessionEvent::TransportFailed | SessionEvent::AuthRejected {
                retriable: true,
            } => if attempts_exhausted(s) {
                SessionAction::Stop { fatal: false }
            } else {
                SessionAction::Backoff
            },
            SessionEvent::ConnectSucceeded => if s.state is Connecting {
                SessionAction::SendAuth
            } else {
                SessionAction::Continue
            },
            SessionEvent::AuthAccepted => SessionAction::Continue,
            SessionEvent::BackoffElapsed => if s.state is Reconnecting {
                SessionAction::Connect
            } else {
                SessionAction::Continue
            },
        }
    }
}

/// The whole session after one step, as a value.
pub open spec fn step_spec(s: Session, e: SessionEvent) -> Session {
    Session {
        state: next_state(s, e),
        consecutive_failures: next_failures(s, e),
        reconnects: (s.reconnects + if counts_reconnect(s, e) {
            1int
        } else {
            0int
        }) as u64,
        max_reconnects: s.max_reconnects,
    }
}

/// The session after a whole run of observed events.
pub open spec fn run_session(s: Session, events: Seq<SessionEvent>) -> Session
    decreases events.len(),
{
    if events.len() == 0 {
        s
    } else {
        run_session(step_spec(s, events[0]), events.drop_first())
    }
}

/// How many of the events of a run are counted reconnections: transitions
/// `Connected | Authenticating -> Reconnecting`.
pub open spec fn reconnect_count(s: Session, events: Seq<SessionEvent>) -> nat
    decreases events.len(),
{
    if events.len() == 0 {
        0
    } else {
        (if counts_reconnect(s, events[0]) {
            1nat
        } else {
            0nat
        }) + reconnect_count(step_spec(s, events[0]), events.drop_first())
    }
}

/// Over any run, the reconnect counter never decreases, and it grows by
/// exactly the number of transitions `Connected | Authenticating ->
/// Reconnecting` that the run contains.
pub proof fn lemma_reconnects_counted(s: Session, events: Seq<SessionEvent>)
    requires
        s.reconnects + reconnect_count(s, events) <= u64::MAX,
    ensures
        run_session(s, events).reconnects == s.reconnects + reconnect_count(s, events),
        run_session(s, events).reconnects >= s.reconnects,
    decreases events.len(),
{
    if events.len() > 0 {
        lemma_reconnects_counted(step_spec(s, events[0]), events.drop_first());
    }
}

/// No event of the run is an unretriable authentication rejection or an
/// ordered shutdown.
pub open spec fn no_terminal_order(events: Seq<SessionEvent>) -> bool {
    forall|i: int|
        0 <= i < events.len() ==> !(events[i] matches SessionEvent::AuthRejected {
            retriable: false,
        }) && !(events[i] is ShutdownRequested)
}

/// With an unlimited attempt budget the reconnect loop never terminates on
/// its own: over any run free of shutdown orders and unretriable
/// authentication rejections, a live session never reaches `Disconnected`.
pub proof fn lemma_unlimited_reconnects_never_stop(s: Session, events: Seq<SessionEvent>)
    requires
        s.max_reconnects == 0,
        !(s.state is Disconnected),
        no_terminal_order(events),
    ensures
        !(run_session(s, events).state is Disconnected),
        run_session(s, events).max_reconnects == 0,
    decreases events.len(),
{
    if events.len() > 0 {
        assert(!(events[0] matches SessionEvent::AuthRejected { retriable: false }));
        assert(no_terminal_order(events.drop_first())) by {
            assert forall|i: int| 0 <= i < events.drop_first().len() implies !(
            events.drop_first()[i] matches SessionEvent::AuthRejected { retriable: false }) && !(
            events.drop_first()[i] is ShutdownRequested) by {
                assert(events.drop_first()[i] == events[i + 1]);
            }
        }
        lemma_unlimited_reconnects_never_stop(step_spec(s, events[0]), events.drop_first());
    }
}

impl Session {
    /// A fresh session, about to connect for the first time.
    pub fn new(max_reconnects: u64) -> (r: Session)
        ensures
            r.state is Connecting,
            r.consecutive_failures == 0,
            r.reconnects == 0,
            r.max_reconnects == max_reconnects,
    {
        Session {
            state: SessionState::Connecting,
            consecutive_failures: 0,
            reconnects: 0,
            max_reconnects,
        }
    }

    /// Advance the session by one observed event.
    ///
    /// The reconnect counter never decreases, and it moves exactly on the
    /// transitions `Connected | Authenticating -> Reconnecting`. With an
    /// unlimited attempt budget (`max_reconnects == 0`) the reconnect loop
    /// never stops on its own: only an ordered shutdown or an unretriable
    /// authentication rejection reaches `Disconnected`.
    pub fn step(&mut self, event: SessionEvent) -> (action: SessionAction)
        requires
            old(self).reconnects < u64::MAX,
            old(self).consecutive_failures < u64::MAX,
        ensures
            *final(self) == step_spec(*old(self), event),
            action == step_action(*old(self), event),
            final(self).max_reconnects == old(self).max_reconnects,
            final(self).state == next_state(*old(self), event),
            final(self).reconnects == old(self).reconnects + if counts_reconnect(
                *old(self),
                event,
            ) {
                1int
            } else {
                0int
            },
            final(self).reconnects >= old(self).reconnects,
            (old(self).max_reconnects == 0 && !(event matches SessionEvent::AuthRejected {
                retriable: false,
            }) && !(event is ShutdownRequested) && !(old(self).state is Disconnected))
                ==> !(final(self).state is Disconnected),
            final(self).consecutive_failures == next_failures(*old(self), event),
            action matches SessionAction::Stop { fatal } ==> (final(self).state is Disconnected
                && (fatal <==> event matches SessionEvent::AuthRejected { retriable: false })),
            final(self).state is Disconnected && !(old(self).state is Disconnected) ==> action
                is Stop,
            final(self).state is Reconnecting && !(old(self).state is Reconnecting) ==> action
                is Backoff,
    {
        if matches!(self.state, SessionState::Disconnected) {
            return SessionAction::Continue;
        }
        match event {
            SessionEvent::ShutdownRequested => {
                self.state = SessionState::Disconnected;
                SessionAction::Stop { fatal: false }
            },
            SessionEvent::AuthRejected { retriable: false } => {
                self.state = SessionState::Disconnected;
                SessionAction::Stop { fatal: true }
            },
            SessionEvent::ConnectFailed
            | SessionEvent::TransportFailed
            | SessionEvent::AuthRejected { retriable: true } => {
                let from_live = matches!(
                    self.state,
                    SessionState::Connected | SessionState::Authenticating
                );
                if self.max_reconnects != 0 && self.consecutive_failures >= self.max_reconnects {
                    self.state = SessionState::Disconnected;
                    SessionAction::Stop { fatal: false }
                } else {
                    self.state = SessionState::Reconnecting;
                    self.consecutive_failures = self.consecutive_failures + 1;
                    if from_live {
                        self.reconnects = self.reconnects + 1;
                    }
                    SessionAction::Backoff
                }
            },
            SessionEvent::ConnectSucceeded => {
                if matches!(self.state, SessionState::Connecting) {
                    self.state = SessionState::Authenticating;
                    SessionAction::SendAuth
                } else {
                    SessionAction::Continue
                }
            },
            SessionEvent::AuthAccepted => {
                self.consecutive_failures = 0;
                if matches!(self.state, SessionState::Authenticating) {
                    self.state = SessionState::Connected;
                }
                SessionAction::Continue
            },
            SessionEvent::BackoffElapsed => {
                if matches!(self.state, SessionState::Reconnecting) {
                    self.state = SessionState::Connecting;
                    SessionAction::Connect
                } else {
                    SessionAction::Continue
                }
            },
        }
    }

    /// The observable connection status of the current state.
    pub fn status(&self) -> (r: ConnectionStatus)
        ensures
            self.state is Connecting ==> r is Connecting,
            self.state is Authenticating ==> r is Connecting,
            self.state is Connected ==> r is Connected,
            self.state is Reconnecting ==> r is Reconnecting,
            self.state is Disconnected ==> r is Disconnected,
    {
        match self.state {
            SessionState::Connecting => ConnectionStatus::Connecting,
            SessionState::Authenticating => ConnectionStatus::Connecting,
            SessionState::Connected => ConnectionStatus::Connected,
            SessionState::Reconnecting => ConnectionStatus::Reconnecting,
            SessionState::Disconnected => ConnectionStatus::Disconnected,
        }
    }
}

/// How long a shutdown waits for in-flight requests to drain.
pub const SHUTDOWN_DRAIN_MS: u64 = 5000;

/// Whether an orderly shutdown may proceed to closing the session: it does
/// as soon as no request is in flight, and in any case once the drain
/// deadline has passed.
pub fn shutdown_drain_done(active_requests: u64, waited_ms: u64) -> (r: bool)
    ensures
        r == (active_requests == 0 || waited_ms >= SHUTDOWN_DRAIN_MS),
{
    active_requests == 0 || waited_ms >= SHUTDOWN_DRAIN_MS
}

/// Outbound idle time after which a `Ping` is due.
pub const PING_IDLE_MS: u64 = 30000;

/// Inbound silence after which the session is declared dead.
pub const DEAD_SILENCE_MS: u64 = 60000;

/// What the keepalive discipline asks for.
#[derive(Debug, Clone, Copy, PartialEq, Eq, Structural)]
pub enum KeepaliveAction {
    /// Nothing was received for too long: the session is dead, reconnect.
    DeclareDead,
    /// Nothing was sent for too long: emit a `Ping`.
    SendPing,
    /// The session is live and busy enough.
    Wait,
}

/// The keepalive decision at one instant: a session that received nothing
/// for a minute is dead; otherwise a `Ping` goes out after half a minute of
/// outbound idle.
pub fn keepalive_action(now_ms: u64, last_inbound_ms: u64, last_outbound_ms: u64) -> (a:
    KeepaliveAction)
    requires
        last_inbound_ms <= now_ms,
        last_outbound_ms <= now_ms,
    ensures
        a is DeclareDead <==> now_ms - last_inbound_ms >= DEAD_SILENCE_MS,
        a is SendPing <==> (now_ms - last_inbound_ms < DEAD_SILENCE_MS && now_ms
            - last_outbound_ms >= PING_IDLE_MS),
        a is Wait <==> (now_ms - last_inbound_ms < DEAD_SILENCE_MS && now_ms - last_outbound_ms
            < PING_IDLE_MS),
{
    if now_ms - last_inbound_ms >= DEAD_SILENCE_MS {
        KeepaliveAction::DeclareDead
    } else if now_ms - last_outbound_ms >= PING_IDLE_MS {
        KeepaliveAction::SendPing
    } else {
        KeepaliveAction::Wait
    }
}

/// The backoff before a reconnection attempt, without jitter: 1 s doubled
/// for each further consecutive failure, capped at 30 s.
pub open spec fn backoff_base_spec(failures: u64) -> u64 {
    if failures <= 1 {
        1000u64
    } else if failures == 2 {
        2000u64
    } else if failures == 3 {
        4000u64
    } else if failures == 4 {
        8000u64
    } else if failures == 5 {
        16000u64
    } else {
        30000u64
    }
}

/// The backoff delay in milliseconds before the given consecutive failure,
/// without jitter.
pub fn backoff_base_ms(failures: u64) -> (r: u64)
    ensures
        r == backoff_base_spec(failures),
        1000 <= r <= 30000,
{
    if failures <= 1 {
        1000
    } else if failures == 2 {
        2000
    } else if failures == 3 {
        4000
    } else if failures == 4 {
        8000
    } else if failures == 5 {
        16000
    } else {
        30000
    }
}

/// Apply a full-jitter draw of up to twenty percent either way to a backoff
/// delay. The caller supplies the draw as a factor in permille, between 800
/// and 1200.
pub fn apply_jitter(base_ms: u64, factor_permille: u64) -> (r: u64)
    requires
        base_ms <= 30000,
        800 <= factor_permille <= 1200,
    ensures
        r == base_ms * factor_permille / 1000,
        r <= 36000,
{
    proof {
        assert(base_ms * factor_permille <= 36000000) by (nonlinear_arith)
            requires
                base_ms <= 30000,
                factor_permille <= 1200,
        ;
    }
    base_ms * factor_permille / 1000
}

} // verus!
