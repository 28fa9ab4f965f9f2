//! The load-shed layer: a transport that is not ready is answered with an
//! immediate rejection, never with a wait.

use vstd::prelude::*;
use crate::service::{InvokeError, Readiness};

verus! {

/// The load-shed layer. It keeps no state between calls.
#[derive(Clone, Copy, Debug)]
pub struct LoadShed {}

impl LoadShed {
    /// What the layer answers to a poll when the service it wraps answered
    /// `inner`: anything but `Ready` becomes `Shed`.
    pub open spec fn readiness(inner: Readiness) -> Readiness {
        if inner is Ready {
            Readiness::Ready
        } else {
            Readiness::Shed
        }
    }

    pub fn new() -> (layer: LoadShed) {
        LoadShed {  }
    }

    /// Polls readiness, given the answer `inner` of the wrapped service.
    pub fn check_ready(&self, inner: Readiness) -> (r: Readiness)
        ensures
            r == Self::readiness(inner),
    {
        match inner {
            Readiness::Ready => Readiness::Ready,
            _ => Readiness::Shed,
        }
    }

    /// Invokes, given the answer `inner` of the wrapped service to a
    /// readiness poll made for this call. The call goes on only if the
    /// wrapped service is ready; otherwise it fails with `Shed` at once.
    pub fn invoke<E>(&self, inner: Readiness) -> (r: Result<(), InvokeError<E>>)
        ensures
            inner is Ready ==> r == Ok::<(), InvokeError<E>>(()),
            !(inner is Ready) ==> r == Err::<(), InvokeError<E>>(InvokeError::Shed),
    {
        match self.check_ready(inner) {
            Readiness::Ready => Ok(()),
            _ => Err(InvokeError::Shed),
        }
    }
}

} // verus!
