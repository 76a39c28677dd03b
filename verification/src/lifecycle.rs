//! The server's lifecycle state machine: creation, guarded start and stop,
//! failure states and uptime tracking.
//!
//! Starting is allowed only from the created or stopped state, stopping
//! only while starting or running; anything else is rejected with an error
//! value, never a panic. Every state change is an edge of the declared
//! graph.

use vstd::prelude::*;
use crate::error::{McpError, McpResult};

verus! {

/// State of the server lifecycle.
#[derive(Debug, PartialEq)]
pub enum LifecycleState {
    /// Built, never started.
    Created,
    /// A start is in progress.
    Starting,
    /// Serving.
    Running,
    /// A stop is in progress.
    Stopping,
    /// Stopped; may be started again.
    Stopped,
    /// Failed; the reason is kept.
    Error(String),
}

impl Clone for LifecycleState {
    /// A clone denotes the same state.
    fn clone(&self) -> (r: Self)
        ensures
            r == *self,
    {
        match self {
            LifecycleState::Created => LifecycleState::Created,
            LifecycleState::Starting => LifecycleState::Starting,
            LifecycleState::Running => LifecycleState::Running,
            LifecycleState::Stopping => LifecycleState::Stopping,
            LifecycleState::Stopped => LifecycleState::Stopped,
            LifecycleState::Error(reason) => LifecycleState::Error(reason.clone()),
        }
    }
}

/// The declared transition graph of the server lifecycle. Every mutating
/// operation of [`ServerLifecycle`] promises that its state change is one
/// of these edges.
pub open spec fn lifecycle_edge(a: LifecycleState, b: LifecycleState) -> bool {
    ||| a == b
    ||| ((a is Created || a is Stopped) && b is Starting)
    ||| (a is Starting && (b is Running || b is Error))
    ||| ((a is Running || a is Starting) && b is Stopping)
    ||| (a is Stopping && (b is Stopped || b is Error))
}

/// The lifecycle state machine, with the timestamp serving began.
#[derive(Debug)]
pub struct ServerLifecycle {
    /// Current state.
    pub state: LifecycleState,
    /// Timestamp (caller-supplied milliseconds) at which the server entered
    /// the running state, while it is running.
    pub started_at: Option<u64>,
}

impl ServerLifecycle {
    /// A freshly created, never started lifecycle.
    pub fn new() -> (r: Self)
        ensures
            r.state is Created,
            r.started_at is None,
    {
        ServerLifecycle { state: LifecycleState::Created, started_at: None }
    }

    /// The current state.
    pub fn state(&self) -> (r: LifecycleState)
        ensures
            r == self.state,
    {
        self.state.clone()
    }

    /// Whether the server is serving.
    pub fn is_running(&self) -> (r: bool)
        ensures
            r == (self.state is Running),
    {
        match self.state {
            LifecycleState::Running => true,
            _ => false,
        }
    }

    /// How long the server has been running, given the current time.
    pub fn uptime(&self, now_ms: u64) -> (r: Option<u64>)
        ensures
            match self.started_at {
                Some(t) => r == Some(if now_ms >= t {
                    (now_ms - t) as u64
                } else {
                    0u64
                }),
                None => r is None,
            },
    {
        match self.started_at {
            Some(t) => if now_ms >= t {
                Some(now_ms - t)
            } else {
                Some(0)
            },
            None => None,
        }
    }

    /// Begin a start. Allowed only from the created or stopped state;
    /// anything else — starting twice, starting while stopping — is
    /// rejected with an error value and the state is untouched.
    pub fn begin_start(&mut self) -> (r: McpResult<()>)
        ensures
            lifecycle_edge(old(self).state, final(self).state),
            r is Ok <==> (old(self).state is Created || old(self).state is Stopped),
            r is Ok ==> final(self).state is Starting && final(self).started_at == old(
                self,
            ).started_at,
            r is Err ==> *final(self) == *old(self) && r matches Err(
                McpError::ProtocolViolation(_),
            ),
    {
        match self.state {
            LifecycleState::Created => {
                self.state = LifecycleState::Starting;
                Ok(())
            },
            LifecycleState::Stopped => {
                self.state = LifecycleState::Starting;
                Ok(())
            },
            _ => Err(McpError::ProtocolViolation("start is not allowed in this state".to_owned())),
        }
    }

    /// Record that the transport came up: the server is running and uptime
    /// counts from now.
    pub fn start_succeeded(&mut self, now_ms: u64)
        requires
            old(self).state is Starting,
        ensures
            lifecycle_edge(old(self).state, final(self).state),
            final(self).state is Running,
            final(self).started_at == Some(now_ms),
    {
        self.state = LifecycleState::Running;
        self.started_at = Some(now_ms);
    }

    /// Record that the transport failed to come up: the lifecycle keeps the
    /// reason, and the error still travels back to the caller that asked
    /// for the start.
    pub fn start_failed(&mut self, reason: String)
        requires
            old(self).state is Starting,
        ensures
            lifecycle_edge(old(self).state, final(self).state),
            final(self).state == LifecycleState::Error(reason),
            final(self).started_at == old(self).started_at,
    {
        self.state = LifecycleState::Error(reason);
    }

    /// Begin a stop. Allowed only while running or still starting; anything
    /// else — stopping a server that was never started, stopping twice — is
    /// rejected with an error value and the state is untouched.
    pub fn begin_stop(&mut self) -> (r: McpResult<()>)
        ensures
            lifecycle_edge(old(self).state, final(self).state),
            r is Ok <==> (old(self).state is Running || old(self).state is Starting),
            r is Ok ==> final(self).state is Stopping,
            r is Err ==> *final(self) == *old(self) && r matches Err(
                McpError::ProtocolViolation(_),
            ),
    {
        match self.state {
            LifecycleState::Running => {
                self.state = LifecycleState::Stopping;
                Ok(())
            },
            LifecycleState::Starting => {
                self.state = LifecycleState::Stopping;
                Ok(())
            },
            _ => Err(McpError::ProtocolViolation("stop is not allowed in this state".to_owned())),
        }
    }

    /// Record that the stop completed: the server is stopped and its uptime
    /// is cleared.
    pub fn stop_finished(&mut self)
        requires
            old(self).state is Stopping,
        ensures
            lifecycle_edge(old(self).state, final(self).state),
            final(self).state is Stopped,
            final(self).started_at is None,
    {
        self.state = LifecycleState::Stopped;
        self.started_at = None;
    }

    /// Record that the stop did not complete within its deadline: the
    /// lifecycle is forced into the error state, and the caller that asked
    /// for the stop receives the returned timeout error.
    pub fn stop_timed_out(&mut self) -> (r: McpError)
        requires
            old(self).state is Stopping,
        ensures
            lifecycle_edge(old(self).state, final(self).state),
            final(self).state is Error,
            final(self).started_at == old(self).started_at,
            r is ConnectionTimeout,
    {
        self.state = LifecycleState::Error("stop timed out".to_owned());
        McpError::ConnectionTimeout
    }
}

} // verus!
