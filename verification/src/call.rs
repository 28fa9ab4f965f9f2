//! One call through the pipeline, as a state machine driven by events.

use vstd::prelude::*;
use crate::service::{InvokeError, Readiness};

verus! {

/// An invocation that has been handed to the transport and not yet resolved.
#[derive(Debug, PartialEq, Eq)]
pub struct PendingCall {
    /// When the call was handed to the transport.
    pub started_at: u64,
    /// The last instant at which an answer still counts.
    pub deadline: u64,
}

/// Where one call stands. `Completed` and `Failed` are final.
#[derive(Debug, PartialEq, Eq)]
pub enum CallState<Resp, E> {
    /// Nothing has happened yet.
    Idle,
    /// The readiness check passed; the call has not been invoked.
    Admitted,
    /// The transport has the request.
    InFlight(PendingCall),
    /// The transport answered in time.
    Completed(Resp),
    /// The call was rejected, failed in the transport, or ran out of time.
    Failed(InvokeError<E>),
}

/// What the caller observed and reports to the pipeline.
#[derive(Debug, PartialEq, Eq)]
pub enum Event<Resp, E> {
    /// The caller polled the transport's readiness at `now`.
    Poll { now: u64, transport: Readiness },
    /// The caller invokes at `now`; `transport` is the transport's
    /// readiness as polled for this call.
    Invoke { now: u64, transport: Readiness },
    /// The transport returned `response` at `at`.
    Response { at: u64, response: Resp },
    /// The transport failed with `error` at `at`.
    Failure { at: u64, error: E },
    /// The clock reached `at` and the transport has not answered.
    Tick { at: u64 },
}

impl PendingCall {
    /// The call that starts at `started_at` under a timeout of `duration`.
    /// A deadline past the end of the clock is the clock's last instant.
    pub open spec fn begun(started_at: u64, duration: u64) -> PendingCall {
        PendingCall {
            started_at,
            deadline: if started_at + duration > u64::MAX {
                u64::MAX
            } else {
                (started_at + duration) as u64
            },
        }
    }

    /// The state that follows `InFlight(self)` on `event`.
    ///
    /// An answer counts if it came no later than the deadline; a later one
    /// is discarded and the call has timed out. A clock reading at or past
    /// the deadline, with no answer, is a timeout too.
    pub open spec fn resolved<Resp, E>(self, event: Event<Resp, E>) -> CallState<Resp, E> {
        match event {
            Event::Response { at, response } => if at <= self.deadline {
                CallState::Completed(response)
            } else {
                CallState::Failed(InvokeError::Timeout)
            },
            Event::Failure { at, error } => if at <= self.deadline {
                CallState::Failed(InvokeError::Inner(error))
            } else {
                CallState::Failed(InvokeError::Timeout)
            },
            Event::Tick { at } => if at >= self.deadline {
                CallState::Failed(InvokeError::Timeout)
            } else {
                CallState::InFlight(self)
            },
            _ => CallState::InFlight(self),
        }
    }

    /// Resolves the call on `event`.
    pub fn resolve<Resp, E>(self, event: Event<Resp, E>) -> (state: CallState<Resp, E>)
        ensures
            state == self.resolved(event),
    {
        match event {
            Event::Response { at, response } => if at <= self.deadline {
                CallState::Completed(response)
            } else {
                CallState::Failed(InvokeError::Timeout)
            },
            Event::Failure { at, error } => if at <= self.deadline {
                CallState::Failed(InvokeError::Inner(error))
            } else {
                CallState::Failed(InvokeError::Timeout)
            },
            Event::Tick { at } => if at >= self.deadline {
                CallState::Failed(InvokeError::Timeout)
            } else {
                CallState::InFlight(self)
            },
            _ => CallState::InFlight(self),
        }
    }
}

impl<Resp, E> CallState<Resp, E> {
    /// Whether the call is over.
    pub open spec fn is_final(self) -> bool {
        self is Completed || self is Failed
    }

    /// The state that follows `self` on an event from the transport or the
    /// clock. Only a call in flight reacts; a final state stays as it is,
    /// so an answer that arrives after the call is over changes nothing.
    pub open spec fn after(self, event: Event<Resp, E>) -> CallState<Resp, E> {
        match self {
            CallState::InFlight(pending) => pending.resolved(event),
            other => other,
        }
    }

    /// Applies an event from the transport or the clock.
    pub fn on_event(self, event: Event<Resp, E>) -> (next: CallState<Resp, E>)
        ensures
            next == self.after(event),
    {
        match self {
            CallState::InFlight(pending) => pending.resolve(event),
            other => other,
        }
    }

    /// Whether the call is over.
    pub fn is_done(&self) -> (done: bool)
        ensures
            done == self.is_final(),
    {
        match self {
            CallState::Completed(_) => true,
            CallState::Failed(_) => true,
            _ => false,
        }
    }
}

} // verus!
