//! The rate-limit layer: a fixed-window counter of admitted calls.

use vstd::prelude::*;
use crate::service::{InvokeError, Readiness};

verus! {

/// The mathematical state of a rate limiter.
///
/// Times are points on the caller's clock, in milliseconds.
pub struct RateLimitView {
    /// How many calls one window admits.
    pub capacity: nat,
    /// The length of a window.
    pub window: nat,
    /// How many calls the current window still admits.
    pub tokens_available: nat,
    /// When the current window began.
    pub window_start: nat,
}

impl RateLimitView {
    /// A window never holds more tokens than the capacity.
    pub open spec fn wf(self) -> bool {
        self.tokens_available <= self.capacity
    }

    /// A limiter as it is built: a full window that begins at the clock's origin.
    pub open spec fn fresh(capacity: nat, window: nat) -> Self {
        RateLimitView { capacity, window, tokens_available: capacity, window_start: 0 }
    }

    /// Whether the current window is over at `now`.
    ///
    /// A `now` that lies before `window_start` is inside the window.
    pub open spec fn expired(self, now: nat) -> bool {
        now - self.window_start >= self.window
    }

    /// The state after the window check at `now`: an expired window is
    /// replaced by a full one that begins at `now`.
    pub open spec fn refresh(self, now: nat) -> Self {
        if self.expired(now) {
            RateLimitView { tokens_available: self.capacity, window_start: now, ..self }
        } else {
            self
        }
    }

    /// Whether a call at `now` finds a token, the window check done first.
    pub open spec fn has_token(self, now: nat) -> bool {
        self.refresh(now).tokens_available > 0
    }

    /// The answer to a readiness poll at `now`, given the answer of the
    /// wrapped service. Only a service that is ready below is held to the
    /// token count; any other answer is passed on.
    pub open spec fn readiness(self, now: nat, inner: Readiness) -> Readiness {
        match inner {
            Readiness::Ready => if self.has_token(now) {
                Readiness::Ready
            } else {
                Readiness::NotReady
            },
            other => other,
        }
    }

    /// The state after taking one token at `now`, if there is one.
    pub open spec fn take(self, now: nat) -> Self {
        let r = self.refresh(now);
        if r.tokens_available > 0 {
            RateLimitView { tokens_available: (r.tokens_available - 1) as nat, ..r }
        } else {
            r
        }
    }

    /// The state after an invocation at `now`. A call that was already
    /// rejected below takes no token.
    pub open spec fn after_invoke(self, now: nat, admitted_below: bool) -> Self {
        if admitted_below {
            self.take(now)
        } else {
            self.refresh(now)
        }
    }
}

/// The rate-limit layer. Its state persists from call to call.
#[derive(Debug)]
pub struct RateLimit {
    capacity: u64,
    window: u64,
    tokens_available: u64,
    window_start: u64,
}

impl View for RateLimit {
    type V = RateLimitView;

    closed spec fn view(&self) -> RateLimitView {
        RateLimitView {
            capacity: self.capacity as nat,
            window: self.window as nat,
            tokens_available: self.tokens_available as nat,
            window_start: self.window_start as nat,
        }
    }
}

impl RateLimit {
    #[verifier::type_invariant]
    spec fn inv(self) -> bool {
        self.tokens_available <= self.capacity
    }

    /// A limiter that admits `capacity` calls in every `window` milliseconds.
    /// The first window is full and begins at the clock's origin.
    pub fn new(capacity: u64, window: u64) -> (limiter: RateLimit)
        ensures
            limiter@ == RateLimitView::fresh(capacity as nat, window as nat),
            limiter@.wf(),
    {
        RateLimit { capacity, window, tokens_available: capacity, window_start: 0 }
    }

    /// How many calls one window admits.
    pub fn capacity(&self) -> (n: u64)
        ensures
            n == self@.capacity,
    {
        self.capacity
    }

    /// The length of a window, in milliseconds.
    pub fn window(&self) -> (n: u64)
        ensures
            n == self@.window,
    {
        self.window
    }

    /// How many calls the current window still admits.
    pub fn tokens_available(&self) -> (n: u64)
        ensures
            n == self@.tokens_available,
            n <= self@.capacity,
    {
        proof {
            use_type_invariant(self);
        }
        self.tokens_available
    }

    /// When the current window began.
    pub fn window_start(&self) -> (t: u64)
        ensures
            t == self@.window_start,
    {
        self.window_start
    }

    /// Runs the window check at `now`.
    fn refresh(&mut self, now: u64)
        ensures
            final(self)@ == old(self)@.refresh(now as nat),
            final(self)@.wf(),
    {
        proof {
            use_type_invariant(&*self);
        }
        if now >= self.window_start && now - self.window_start >= self.window {
            *self = RateLimit {
                capacity: self.capacity,
                window: self.window,
                tokens_available: self.capacity,
                window_start: now,
            };
        }
    }

    /// Polls readiness at `now`, given the answer `inner` of the wrapped
    /// service. The window check runs first, whatever `inner` is.
    pub fn check_ready(&mut self, now: u64, inner: Readiness) -> (r: Readiness)
        ensures
            r == old(self)@.readiness(now as nat, inner),
            final(self)@ == old(self)@.refresh(now as nat),
            final(self)@.wf(),
    {
        self.refresh(now);
        match inner {
            Readiness::Ready => if self.tokens_available > 0 {
                Readiness::Ready
            } else {
                Readiness::NotReady
            },
            other => other,
        }
    }

    /// Invokes at `now`, given the result `inner` of the wrapped service's
    /// admission. The window check runs first. An error from below passes
    /// through unchanged and costs no token; otherwise one token is taken,
    /// or the call fails with `RateLimited` where the window has none.
    pub fn invoke<E>(&mut self, now: u64, inner: Result<(), InvokeError<E>>) -> (r: Result<
        (),
        InvokeError<E>,
    >)
        ensures
            final(self)@ == old(self)@.after_invoke(now as nat, inner is Ok),
            final(self)@.wf(),
            inner is Err ==> r == inner,
            inner is Ok && old(self)@.has_token(now as nat) ==> r == Ok::<(), InvokeError<E>>(()),
            inner is Ok && !old(self)@.has_token(now as nat) ==> r == Err::<(), InvokeError<E>>(
                InvokeError::RateLimited,
            ),
    {
        self.refresh(now);
        match inner {
            Err(e) => Err(e),
            Ok(()) => {
                if self.tokens_available > 0 {
                    *self = RateLimit {
                        capacity: self.capacity,
                        window: self.window,
                        tokens_available: self.tokens_available - 1,
                        window_start: self.window_start,
                    };
                    Ok(())
                } else {
                    Err(InvokeError::RateLimited)
                }
            },
        }
    }
}

} // verus!
