//! Client connection lifecycle: the session state machine, its reconnect
//! policy with exponential backoff, and the heartbeat decision.
//!
//! The machine decides; the surrounding runtime performs. Every operation
//! that changes the state takes exactly one edge of the declared state
//! graph, and every refusal is an error value, never a panic.

use vstd::prelude::*;
use crate::error::{McpError, McpResult};

verus! {

/// State of a client session.
#[derive(Debug, PartialEq)]
pub enum SessionState {
    /// No connection exists.
    Disconnected,
    /// A connect handshake is in progress.
    Connecting,
    /// The session is live; requests may be issued.
    Connected,
    /// A reconnect attempt is in progress.
    Reconnecting,
    /// The session failed and will not recover without caller action.
    Failed(String),
}

impl Clone for SessionState {
    /// A clone denotes the same state.
    fn clone(&self) -> (r: Self)
        ensures
            r == *self,
    {
        match self {
            SessionState::Disconnected => SessionState::Disconnected,
            SessionState::Connecting => SessionState::Connecting,
            SessionState::Connected => SessionState::Connected,
            SessionState::Reconnecting => SessionState::Reconnecting,
            SessionState::Failed(reason) => SessionState::Failed(reason.clone()),
        }
    }
}

/// The declared transition graph of a client session. Every mutating
/// operation of [`ClientSession`] promises that its state change is one of
/// these edges, so any sequence of operations walks a valid path.
pub open spec fn client_edge(a: SessionState, b: SessionState) -> bool {
    ||| a == b
    ||| b is Connecting  // a connect attempt may start from any state
    ||| (a is Connecting && b is Connected)  // only a handshake in progress can succeed
    ||| b is Failed  // a handshake failure or a refused reconnect may hit any state
    ||| b is Disconnected  // an explicit disconnect or heartbeat failure is always allowed
    ||| b is Reconnecting  // a reconnect attempt may start from any state
}

/// Session policy knobs. Delays are in milliseconds; the backoff multiplier
/// is a whole number.
#[derive(Debug, Clone, PartialEq, Eq)]
pub struct SessionConfig {
    /// Whether `begin_reconnect` is allowed at all.
    pub auto_reconnect: bool,
    /// Ceiling on reconnect attempts.
    pub max_reconnect_attempts: u32,
    /// Delay before the first reconnect attempt.
    pub reconnect_delay_ms: u64,
    /// Ceiling on any reconnect delay.
    pub max_reconnect_delay_ms: u64,
    /// Factor the delay grows by with each attempt.
    pub reconnect_backoff: u32,
    /// Deadline for the connect handshake.
    pub connection_timeout_ms: u64,
    /// Period of the heartbeat probe; zero disables it.
    pub heartbeat_interval_ms: u64,
    /// Deadline for one heartbeat probe.
    pub heartbeat_timeout_ms: u64,
}

impl Default for SessionConfig {
    /// The stock policy: reconnect up to five times, starting at one second
    /// and doubling up to thirty seconds; heartbeat every thirty seconds
    /// with a five second probe deadline.
    fn default() -> (r: Self)
        ensures
            r.auto_reconnect,
            r.max_reconnect_attempts == 5,
            r.reconnect_delay_ms == 1000,
            r.max_reconnect_delay_ms == 30000,
            r.reconnect_backoff == 2,
            r.connection_timeout_ms == 10000,
            r.heartbeat_interval_ms == 30000,
            r.heartbeat_timeout_ms == 5000,
    {
        SessionConfig {
            auto_reconnect: true,
            max_reconnect_attempts: 5,
            reconnect_delay_ms: 1000,
            max_reconnect_delay_ms: 30000,
            reconnect_backoff: 2,
            connection_timeout_ms: 10000,
            heartbeat_interval_ms: 30000,
            heartbeat_timeout_ms: 5000,
        }
    }
}

/// The smaller of two naturals.
pub open spec fn spec_min_nat(a: nat, b: nat) -> nat {
    if a <= b {
        a
    } else {
        b
    }
}

/// `base` to the power `e`.
pub open spec fn spec_pow(base: nat, e: nat) -> nat
    decreases e,
{
    if e == 0 {
        1
    } else {
        base * spec_pow(base, (e - 1) as nat)
    }
}

/// The delay before reconnect attempt `attempt` (counted from 1):
/// `initial * multiplier^(attempt-1)`, capped at `max_delay`.
pub open spec fn spec_reconnect_delay(
    initial: nat,
    multiplier: nat,
    attempt: nat,
    max_delay: nat,
) -> nat
    recommends
        attempt >= 1,
{
    spec_min_nat(initial * spec_pow(multiplier, (attempt - 1) as nat), max_delay)
}

/// Pure backoff computation. The result is exactly the capped exponential
/// delay, for every input; the computation saturates internally instead of
/// overflowing.
pub fn reconnect_delay(initial: u64, multiplier: u32, attempt: u32, max_delay: u64) -> (d: u64)
    requires
        attempt >= 1,
    ensures
        d == spec_reconnect_delay(
            initial as nat,
            multiplier as nat,
            attempt as nat,
            max_delay as nat,
        ),
{
    if multiplier == 0 {
        if attempt == 1 {
            // multiplier^0 is 1, so the uncapped delay is `initial`
            if initial < max_delay {
                return initial;
            } else {
                return max_delay;
            }
        } else {
            return 0;
        }
    }
    let mut k: u32 = 1;
    let mut d: u64 = initial;
    while k < attempt
        invariant
            1 <= k <= attempt,
            multiplier >= 1,
            d as nat <= initial as nat * spec_pow(multiplier as nat, (k - 1) as nat),
            d < max_delay ==> d as nat == initial as nat * spec_pow(
                multiplier as nat,
                (k - 1) as nat,
            ),
            spec_min_nat(
                initial as nat * spec_pow(multiplier as nat, (k - 1) as nat),
                max_delay as nat,
            ) == spec_min_nat(d as nat, max_delay as nat),
        decreases attempt - k,
    {
        let ghost prod_prev = initial as nat * spec_pow(multiplier as nat, (k - 1) as nat);
        let ghost prod_next = initial as nat * spec_pow(multiplier as nat, k as nat);
        proof {
            assert(spec_pow(multiplier as nat, k as nat) == multiplier as nat * spec_pow(
                multiplier as nat,
                (k - 1) as nat,
            ));
            assert(prod_next == prod_prev * multiplier as nat) by (nonlinear_arith)
                requires
                    prod_prev == initial as nat * spec_pow(multiplier as nat, (k - 1) as nat),
                    prod_next == initial as nat * (multiplier as nat * spec_pow(
                        multiplier as nat,
                        (k - 1) as nat,
                    )),
            ;
            assert(prod_prev <= prod_next) by (nonlinear_arith)
                requires
                    multiplier >= 1,
                    prod_prev >= 0,
                    prod_next == prod_prev * multiplier as nat,
            ;
        }
        if d >= max_delay {
            // already saturated; larger exponents keep it saturated
            k = k + 1;
        } else {
            match d.checked_mul(multiplier as u64) {
                Some(nd) => {
                    proof {
                        assert(nd as nat == prod_next) by (nonlinear_arith)
                            requires
                                nd == d * multiplier,
                                d as nat == prod_prev,
                                prod_next == prod_prev * multiplier as nat,
                        ;
                    }
                    d = nd;
                    k = k + 1;
                },
                None => {
                    // the true product no longer fits in 64 bits, so it is
                    // certainly at or above the cap
                    proof {
                        assert(prod_next > u64::MAX) by (nonlinear_arith)
                            requires
                                d as nat * multiplier as nat > u64::MAX,
                                d as nat == prod_prev,
                                prod_next == prod_prev * multiplier as nat,
                        ;
                    }
                    d = max_delay;
                    k = k + 1;
                },
            }
        }
    }
    if d < max_delay {
        d
    } else {
        max_delay
    }
}

/// Point-in-time statistics of a session.
#[derive(Debug, Clone, PartialEq)]
pub struct SessionStats {
    /// Current state.
    pub state: SessionState,
    /// Milliseconds the session has been connected, if it is.
    pub uptime: Option<u64>,
    /// Reconnect attempts made since the last successful connect.
    pub reconnect_attempts: u32,
    /// Timestamp at which the session last became connected.
    pub connected_at: Option<u64>,
}

/// The client session state machine: current state, reconnect counter and
/// connect timestamp, governed by a [`SessionConfig`].
#[derive(Debug)]
pub struct ClientSession {
    /// Policy knobs.
    pub config: SessionConfig,
    /// Current state.
    pub state: SessionState,
    /// Reconnect attempts made since the last successful connect.
    pub reconnect_attempts: u32,
    /// Timestamp (caller-supplied milliseconds) of the last successful
    /// connect, while connected.
    pub connected_at: Option<u64>,
}

impl ClientSession {
    /// A disconnected session with the stock policy.
    pub fn new() -> (r: Self)
        ensures
            r.state is Disconnected,
            r.reconnect_attempts == 0,
            r.connected_at is None,
            r.config.auto_reconnect,
            r.config.max_reconnect_attempts == 5,
            r.config.reconnect_delay_ms == 1000,
            r.config.max_reconnect_delay_ms == 30000,
            r.config.reconnect_backoff == 2,
            r.config.connection_timeout_ms == 10000,
            r.config.heartbeat_interval_ms == 30000,
            r.config.heartbeat_timeout_ms == 5000,
    {
        ClientSession {
            config: SessionConfig::default(),
            state: SessionState::Disconnected,
            reconnect_attempts: 0,
            connected_at: None,
        }
    }

    /// A disconnected session with the given policy.
    pub fn with_config(config: SessionConfig) -> (r: Self)
        ensures
            r.state is Disconnected,
            r.reconnect_attempts == 0,
            r.connected_at is None,
            r.config == config,
    {
        ClientSession {
            config,
            state: SessionState::Disconnected,
            reconnect_attempts: 0,
            connected_at: None,
        }
    }

    /// The current state.
    pub fn state(&self) -> (r: SessionState)
        ensures
            r == self.state,
    {
        self.state.clone()
    }

    /// The session policy.
    pub fn config(&self) -> (r: &SessionConfig)
        ensures
            r == self.config,
    {
        &self.config
    }

    /// Whether requests may be issued right now.
    pub fn is_connected(&self) -> (r: bool)
        ensures
            r == (self.state is Connected),
    {
        match self.state {
            SessionState::Connected => true,
            _ => false,
        }
    }

    /// Requests may only be issued while connected; anything else fails
    /// fast with a not-connected error instead of blocking.
    pub fn ensure_connected(&self) -> (r: McpResult<()>)
        ensures
            r is Ok <==> self.state is Connected,
            r is Err ==> r matches Err(McpError::NotConnected),
    {
        if self.is_connected() {
            Ok(())
        } else {
            Err(McpError::NotConnected)
        }
    }

    /// How long the session has been connected, given the current time.
    pub fn uptime(&self, now_ms: u64) -> (r: Option<u64>)
        ensures
            match self.connected_at {
                Some(t) => r == Some(if now_ms >= t {
                    (now_ms - t) as u64
                } else {
                    0u64
                }),
                None => r is None,
            },
    {
        match self.connected_at {
            Some(t) => if now_ms >= t {
                Some(now_ms - t)
            } else {
                Some(0)
            },
            None => None,
        }
    }

    /// Start a connect handshake.
    pub fn begin_connect(&mut self)
        ensures
            final(self).state is Connecting,
            final(self).config == old(self).config,
            final(self).reconnect_attempts == old(self).reconnect_attempts,
            final(self).connected_at == old(self).connected_at,
            client_edge(old(self).state, final(self).state),
    {
        self.state = SessionState::Connecting;
    }

    /// Record a successful handshake: the session becomes connected, the
    /// connect timestamp is recorded, and the reconnect counter is reset to
    /// zero — exactly here and nowhere else.
    pub fn connect_succeeded(&mut self, now_ms: u64)
        requires
            old(self).state is Connecting,
        ensures
            final(self).state is Connected,
            final(self).reconnect_attempts == 0,
            final(self).connected_at == Some(now_ms),
            final(self).config == old(self).config,
            client_edge(old(self).state, final(self).state),
    {
        self.state = SessionState::Connected;
        self.reconnect_attempts = 0;
        self.connected_at = Some(now_ms);
    }

    /// Record a failed or timed-out handshake; the reason is kept in the
    /// state.
    pub fn connect_failed(&mut self, reason: String)
        ensures
            final(self).state == SessionState::Failed(reason),
            final(self).reconnect_attempts == old(self).reconnect_attempts,
            final(self).connected_at == old(self).connected_at,
            final(self).config == old(self).config,
            client_edge(old(self).state, final(self).state),
    {
        self.state = SessionState::Failed(reason);
    }

    /// Record an orderly disconnect: the state returns to disconnected and
    /// the connect timestamp is cleared.
    pub fn on_disconnect(&mut self)
        ensures
            final(self).state is Disconnected,
            final(self).connected_at is None,
            final(self).reconnect_attempts == old(self).reconnect_attempts,
            final(self).config == old(self).config,
            client_edge(old(self).state, final(self).state),
    {
        self.state = SessionState::Disconnected;
        self.connected_at = None;
    }

    /// Record a failed or timed-out heartbeat probe. While connected this
    /// always forces the session away from the connected state; it does not
    /// itself reconnect — that stays a caller decision.
    pub fn heartbeat_failed(&mut self)
        ensures
            old(self).state is Connected ==> final(self).state is Disconnected && final(self).connected_at is None,
            !(old(self).state is Connected) ==> *final(self) == *old(self),
            final(self).config == old(self).config,
            final(self).reconnect_attempts == old(self).reconnect_attempts,
            client_edge(old(self).state, final(self).state),
    {
        if self.is_connected() {
            self.state = SessionState::Disconnected;
            self.connected_at = None;
        }
    }

    /// Ask to start reconnect attempt number `reconnect_attempts + 1`.
    ///
    /// Refused when auto-reconnect is disabled, and with a
    /// reconnect-exhausted error when the attempt ceiling is already
    /// reached; both refusals leave the session failed and neither asks the
    /// caller to wait. Otherwise the attempt counter goes up by one, the
    /// session enters the reconnecting state, and the returned delay is
    /// exactly `min(initial * multiplier^(attempt-1), max_delay)`
    /// milliseconds, to be slept before connecting again.
    pub fn begin_reconnect(&mut self) -> (r: McpResult<u64>)
        ensures
            final(self).config == old(self).config,
            final(self).connected_at == old(self).connected_at,
            client_edge(old(self).state, final(self).state),
            !old(self).config.auto_reconnect ==> (r matches Err(McpError::Internal(_)) && final(self).state is Failed && final(self).reconnect_attempts == old(self).reconnect_attempts),
            old(self).config.auto_reconnect && old(self).reconnect_attempts >= old(self).config.max_reconnect_attempts ==> (r matches Err(McpError::ReconnectExhausted) && final(self).state is Failed && final(self).reconnect_attempts == old(self).reconnect_attempts),
            old(self).config.auto_reconnect && old(self).reconnect_attempts < old(self).config.max_reconnect_attempts ==> {
                &&& final(self).state is Reconnecting
                &&& final(self).reconnect_attempts == old(self).reconnect_attempts + 1
                &&& (r matches Ok(d) && d == spec_reconnect_delay(
                    old(self).config.reconnect_delay_ms as nat,
                    old(self).config.reconnect_backoff as nat,
                    (old(self).reconnect_attempts + 1) as nat,
                    old(self).config.max_reconnect_delay_ms as nat,
                ))
            },
            r is Ok <==> old(self).config.auto_reconnect && old(self).reconnect_attempts < old(self).config.max_reconnect_attempts,
    {
        if !self.config.auto_reconnect {
            self.state = SessionState::Failed("auto-reconnect is disabled".to_owned());
            return Err(McpError::Internal("auto-reconnect is disabled".to_owned()));
        }
        if self.reconnect_attempts >= self.config.max_reconnect_attempts {
            self.state = SessionState::Failed("max reconnect attempts exceeded".to_owned());
            return Err(McpError::ReconnectExhausted);
        }
        self.reconnect_attempts = self.reconnect_attempts + 1;
        self.state = SessionState::Reconnecting;
        let d = reconnect_delay(
            self.config.reconnect_delay_ms,
            self.config.reconnect_backoff,
            self.reconnect_attempts,
            self.config.max_reconnect_delay_ms,
        );
        Ok(d)
    }

    /// A snapshot of the session's statistics, given the current time.
    pub fn stats(&self, now_ms: u64) -> (r: SessionStats)
        ensures
            r.state == self.state,
            r.reconnect_attempts == self.reconnect_attempts,
            r.connected_at == self.connected_at,
            match self.connected_at {
                Some(t) => r.uptime == Some(if now_ms >= t {
                    (now_ms - t) as u64
                } else {
                    0u64
                }),
                None => r.uptime is None,
            },
    {
        SessionStats {
            state: self.state.clone(),
            uptime: self.uptime(now_ms),
            reconnect_attempts: self.reconnect_attempts,
            connected_at: self.connected_at,
        }
    }
}

} // verus!
