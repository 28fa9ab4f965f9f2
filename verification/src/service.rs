//! The signals that every layer of the pipeline answers with.

use vstd::prelude::*;

verus! {

/// The answer to a readiness poll. It is computed afresh on every poll.
#[derive(Clone, Copy, Debug, PartialEq, Eq, Structural)]
pub enum Readiness {
    /// An invocation would be accepted now.
    Ready,
    /// The caller should try again later.
    NotReady,
    /// The call is turned away at once: what lies below cannot take it.
    Shed,
}

/// Why an invocation failed. `E` is the transport's own error type.
#[derive(Debug, PartialEq, Eq)]
pub enum InvokeError<E> {
    /// The transport was not ready, and the call was rejected rather than queued.
    Shed,
    /// The current window has no token left.
    RateLimited,
    /// The deadline passed before the transport answered.
    Timeout,
    /// The transport itself failed; its error is carried unchanged.
    Inner(E),
}

} // verus!
