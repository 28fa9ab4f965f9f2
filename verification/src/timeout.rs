//! The timeout layer: it bounds how long one invocation may take.

use vstd::prelude::*;
use crate::call::PendingCall;
use crate::service::{InvokeError, Readiness};

verus! {

/// The timeout layer. It adds no admission policy of its own.
#[derive(Clone, Copy, Debug)]
pub struct Timeout {
    /// How long the transport may take to answer, in milliseconds.
    pub duration: u64,
}

impl Timeout {
    pub fn new(duration: u64) -> (layer: Timeout)
        ensures
            layer.duration == duration,
    {
        Timeout { duration }
    }

    /// Polls readiness: the answer of the wrapped service, unmodified.
    pub fn check_ready(&self, inner: Readiness) -> (r: Readiness)
        ensures
            r == inner,
    {
        inner
    }

    /// Invokes at `now`, given the result `inner` of the wrapped service's
    /// admission. A call admitted below starts its clock at `now`; an error
    /// from below passes through unchanged.
    pub fn invoke<E>(&self, now: u64, inner: Result<(), InvokeError<E>>) -> (r: Result<
        PendingCall,
        InvokeError<E>,
    >)
        ensures
            inner is Ok ==> r == Ok::<PendingCall, InvokeError<E>>(
                PendingCall::begun(now, self.duration),
            ),
            inner is Err ==> r == Err::<PendingCall, InvokeError<E>>(inner->Err_0),
    {
        match inner {
            Ok(()) => Ok(
                PendingCall { started_at: now, deadline: now.saturating_add(self.duration) },
            ),
            Err(e) => Err(e),
        }
    }
}

} // verus!
