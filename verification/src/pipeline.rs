//! The composed pipeline: timeout over rate limit over load shedding over
//! the transport.
//!
//! The pipeline decides; the caller performs. The caller polls the transport,
//! reads the clock, hands the transport the request when told to, and reports
//! back what happened. All times are milliseconds on the caller's clock, whose
//! origin is the moment the pipeline was built.

use vstd::prelude::*;
use core::marker::PhantomData;
use crate::call::{CallState, Event, PendingCall};
use crate::load_shed::LoadShed;
use crate::rate_limit::{RateLimit, RateLimitView};
use crate::service::{InvokeError, Readiness};
use crate::timeout::Timeout;

verus! {

/// The timeout that `Svc::new` configures: 500 seconds.
pub const DEFAULT_TIMEOUT: u64 = 500_000;

/// The number of calls per window that `Svc::new` configures.
pub const DEFAULT_CAPACITY: u64 = 100;

/// The window that `Svc::new` configures: 100 milliseconds.
pub const DEFAULT_WINDOW: u64 = 100;

/// What a pipeline is built with.
#[derive(Clone, Copy, Debug, PartialEq, Eq)]
pub struct Config {
    /// How long the transport may take to answer, in milliseconds.
    pub timeout: u64,
    /// How many calls one window admits.
    pub capacity: u64,
    /// The length of a rate-limit window, in milliseconds.
    pub window: u64,
}

impl Default for Config {
    fn default() -> (config: Config)
        ensures
            config == (Config {
                timeout: DEFAULT_TIMEOUT,
                capacity: DEFAULT_CAPACITY,
                window: DEFAULT_WINDOW,
            }),
    {
        Config { timeout: DEFAULT_TIMEOUT, capacity: DEFAULT_CAPACITY, window: DEFAULT_WINDOW }
    }
}

/// The order to hand `request` to the transport, and the call to report on.
#[derive(Debug, PartialEq, Eq)]
pub struct Dispatch<R> {
    /// The request, as the caller gave it.
    pub request: R,
    /// The call that is now in flight.
    pub pending: PendingCall,
}

/// One call as the pipeline sees it: when it was made, and what the
/// transport answered to the readiness poll made for it.
#[derive(Clone, Copy, Debug, PartialEq, Eq)]
pub struct Attempt {
    /// The time of the call.
    pub now: u64,
    /// The transport's answer at that time.
    pub transport: Readiness,
}

/// The mathematical state of a pipeline. The transport is no part of it:
/// the pipeline never looks inside.
pub struct PipelineView {
    /// The configured timeout.
    pub timeout: u64,
    /// The rate limiter.
    pub limiter: RateLimitView,
}

impl PipelineView {
    pub open spec fn wf(self) -> bool {
        self.limiter.wf()
    }

    /// The pipeline as it is built from `config`.
    pub open spec fn fresh(config: Config) -> Self {
        PipelineView {
            timeout: config.timeout,
            limiter: RateLimitView::fresh(config.capacity as nat, config.window as nat),
        }
    }

    /// The answer to a readiness poll at `now`, where the transport answered
    /// `transport`. Load shedding sees the transport's answer, the rate
    /// limiter sees load shedding's, and the timeout passes the result on.
    pub open spec fn readiness(self, now: u64, transport: Readiness) -> Readiness {
        self.limiter.readiness(now as nat, LoadShed::readiness(transport))
    }

    /// The state after a readiness poll at `now`.
    pub open spec fn after_poll(self, now: u64) -> Self {
        PipelineView { limiter: self.limiter.refresh(now as nat), ..self }
    }

    /// Whether an invocation at `now` is handed to the transport.
    pub open spec fn admits(self, now: u64, transport: Readiness) -> bool {
        transport is Ready && self.limiter.has_token(now as nat)
    }

    /// Why an invocation at `now` that is not handed to the transport is
    /// rejected. Shedding is decided first, on the transport's readiness
    /// alone; the rate limiter is the next gate.
    pub open spec fn rejection<E>(self, now: u64, transport: Readiness) -> InvokeError<E> {
        if !(transport is Ready) {
            InvokeError::Shed
        } else {
            InvokeError::RateLimited
        }
    }

    /// What an invocation at `now` comes to before the transport is
    /// involved: the call in flight, its clock started at `now`, or the
    /// rejection.
    pub open spec fn outcome<E>(self, now: u64, transport: Readiness) -> Result<
        PendingCall,
        InvokeError<E>,
    > {
        if self.admits(now, transport) {
            Ok(PendingCall::begun(now, self.timeout))
        } else {
            Err(self.rejection(now, transport))
        }
    }

    /// The state after an invocation at `now`.
    pub open spec fn after_invoke(self, now: u64, transport: Readiness) -> Self {
        PipelineView {
            limiter: self.limiter.after_invoke(now as nat, transport is Ready),
            ..self
        }
    }

    /// One step of a call: the pipeline and the call after `event`.
    ///
    /// An idle call reacts to a poll, an admitted call to an invocation, a
    /// call in flight to the transport and the clock. Any other event
    /// leaves both as they are.
    pub open spec fn step<Resp, E>(self, state: CallState<Resp, E>, event: Event<Resp, E>) -> (
        PipelineView,
        CallState<Resp, E>,
    ) {
        match (state, event) {
            (CallState::Idle, Event::Poll { now, transport }) => (
                self.after_poll(now),
                match self.readiness(now, transport) {
                    Readiness::Ready => CallState::Admitted,
                    Readiness::NotReady => CallState::Failed(InvokeError::RateLimited),
                    Readiness::Shed => CallState::Failed(InvokeError::Shed),
                },
            ),
            (CallState::Admitted, Event::Invoke { now, transport }) => (
                self.after_invoke(now, transport),
                match self.outcome::<E>(now, transport) {
                    Ok(pending) => CallState::InFlight(pending),
                    Err(e) => CallState::Failed(e),
                },
            ),
            (state, event) => (self, state.after(event)),
        }
    }

    /// The pipeline and the call after `events`, taken in turn.
    pub open spec fn run<Resp, E>(
        self,
        state: CallState<Resp, E>,
        events: Seq<Event<Resp, E>>,
    ) -> (PipelineView, CallState<Resp, E>)
        decreases events.len(),
    {
        if events.len() == 0 {
            (self, state)
        } else {
            let (pipeline, next) = self.step(state, events.first());
            pipeline.run(next, events.drop_first())
        }
    }

    /// The pipeline after the invocations `attempts`, made in turn.
    pub open spec fn after_calls(self, attempts: Seq<Attempt>) -> PipelineView
        decreases attempts.len(),
    {
        if attempts.len() == 0 {
            self
        } else {
            self.after_calls(attempts.drop_last()).after_invoke(
                attempts.last().now,
                attempts.last().transport,
            )
        }
    }

    /// What each of the invocations `attempts`, made in turn, comes to.
    pub open spec fn decisions<E>(self, attempts: Seq<Attempt>) -> Seq<
        Result<PendingCall, InvokeError<E>>,
    > {
        Seq::new(
            attempts.len(),
            |i: int|
                self.after_calls(attempts.take(i)).outcome::<E>(
                    attempts[i].now,
                    attempts[i].transport,
                ),
        )
    }
}

/// The pipeline around a transport of type `T` that takes requests of type
/// `R`.
pub struct Svc<T, R> {
    timeout: Timeout,
    rate_limit: RateLimit,
    load_shed: LoadShed,
    transport: T,
    _request: PhantomData<R>,
}

impl<T, R> View for Svc<T, R> {
    type V = PipelineView;

    closed spec fn view(&self) -> PipelineView {
        PipelineView { timeout: self.timeout.duration, limiter: self.rate_limit@ }
    }
}

impl<T, R> Svc<T, R> {
    /// The transport that the pipeline owns.
    pub closed spec fn transport(&self) -> T {
        self.transport
    }

    /// The pipeline around `svc` with the default configuration: a timeout
    /// of 500 seconds and 100 calls in every 100 milliseconds.
    pub fn new(svc: T) -> (pipeline: Self)
        ensures
            pipeline@ == PipelineView::fresh(
                Config {
                    timeout: DEFAULT_TIMEOUT,
                    capacity: DEFAULT_CAPACITY,
                    window: DEFAULT_WINDOW,
                },
            ),
            pipeline@.wf(),
            pipeline.transport() == svc,
    {
        Self::with_config(
            svc,
            Config { timeout: DEFAULT_TIMEOUT, capacity: DEFAULT_CAPACITY, window: DEFAULT_WINDOW },
        )
    }

    /// The pipeline around `svc`, built innermost layer first.
    pub fn with_config(svc: T, config: Config) -> (pipeline: Self)
        ensures
            pipeline@ == PipelineView::fresh(config),
            pipeline@.wf(),
            pipeline.transport() == svc,
    {
        let load_shed = LoadShed::new();
        let rate_limit = RateLimit::new(config.capacity, config.window);
        let timeout = Timeout::new(config.timeout);
        Svc { timeout, rate_limit, load_shed, transport: svc, _request: PhantomData }
    }

    /// The configuration the pipeline was built with.
    pub fn config(&self) -> (config: Config)
        ensures
            config.timeout == self@.timeout,
            config.capacity == self@.limiter.capacity,
            config.window == self@.limiter.window,
    {
        Config {
            timeout: self.timeout.duration,
            capacity: self.rate_limit.capacity(),
            window: self.rate_limit.window(),
        }
    }

    /// How many calls the current window still admits.
    pub fn tokens_available(&self) -> (n: u64)
        ensures
            n == self@.limiter.tokens_available,
            self@.wf(),
    {
        self.rate_limit.tokens_available()
    }

    /// When the current window began.
    pub fn window_start(&self) -> (t: u64)
        ensures
            t == self@.limiter.window_start,
    {
        self.rate_limit.window_start()
    }

    /// The transport.
    pub fn get_ref(&self) -> (transport: &T)
        ensures
            *transport == self.transport(),
    {
        &self.transport
    }

    /// The transport, for the caller to poll and to hand requests to. The
    /// layers are out of its reach.
    pub fn get_mut(&mut self) -> (transport: &mut T)
        ensures
            *transport == old(self).transport(),
            final(self).transport() == *final(transport),
            final(self)@ == old(self)@,
    {
        &mut self.transport
    }

    /// Takes the pipeline apart and returns the transport.
    pub fn into_inner(self) -> (transport: T)
        ensures
            transport == self.transport(),
    {
        self.transport
    }

    /// Polls the pipeline's readiness at `now`, where the transport answered
    /// `transport` to the caller's poll.
    ///
    /// `Shed` means the transport is not ready, `NotReady` that the window
    /// has no token left, `Ready` that an invocation at `now` is admitted.
    pub fn check_ready(&mut self, now: u64, transport: Readiness) -> (r: Readiness)
        ensures
            r == old(self)@.readiness(now, transport),
            r is Ready <==> old(self)@.admits(now, transport),
            r is Shed <==> !(transport is Ready),
            final(self)@ == old(self)@.after_poll(now),
            final(self)@.wf(),
            final(self).transport() == old(self).transport(),
    {
        let shed = self.load_shed.check_ready(transport);
        let limited = self.rate_limit.check_ready(now, shed);
        self.timeout.check_ready(limited)
    }

    /// Decides an invocation at `now`: each layer is asked in turn, from the
    /// transport outwards.
    fn start<E>(&mut self, now: u64, transport: Readiness) -> (r: Result<
        PendingCall,
        InvokeError<E>,
    >)
        ensures
            r == old(self)@.outcome::<E>(now, transport),
            r is Ok <==> old(self)@.admits(now, transport),
            final(self)@ == old(self)@.after_invoke(now, transport),
            final(self)@.wf(),
            final(self).transport() == old(self).transport(),
    {
        let shed = self.load_shed.invoke(transport);
        let limited = self.rate_limit.invoke(now, shed);
        self.timeout.invoke(now, limited)
    }

    /// Invokes with `req` at `now`, where the transport answered `transport`
    /// to a readiness poll made for this call.
    ///
    /// On `Ok` the caller hands the request to the transport and reports the
    /// outcome to the pending call. On `Err` the transport must not be
    /// called: the request is dropped.
    pub fn invoke<E>(&mut self, req: R, now: u64, transport: Readiness) -> (r: Result<
        Dispatch<R>,
        InvokeError<E>,
    >)
        ensures
            match r {
                Ok(d) => old(self)@.admits(now, transport) && d.request == req && d.pending
                    == PendingCall::begun(now, old(self)@.timeout),
                Err(e) => !old(self)@.admits(now, transport) && e == old(self)@.rejection::<E>(
                    now,
                    transport,
                ),
            },
            final(self)@ == old(self)@.after_invoke(now, transport),
            final(self)@.wf(),
            final(self).transport() == old(self).transport(),
    {
        match self.start(now, transport) {
            Ok(pending) => Ok(Dispatch { request: req, pending }),
            Err(e) => Err(e),
        }
    }

    /// One whole call up to the transport: polls readiness at `now`, and
    /// invokes only if the pipeline is ready.
    ///
    /// The call fails with `Shed` if the transport is not ready, whatever
    /// the rate limiter holds, and with `RateLimited` if the transport is
    /// ready and the window has no token. A rejected call takes no token.
    pub fn call<E>(&mut self, req: R, now: u64, transport: Readiness) -> (r: Result<
        Dispatch<R>,
        InvokeError<E>,
    >)
        ensures
            match r {
                Ok(d) => old(self)@.admits(now, transport) && d.request == req && d.pending
                    == PendingCall::begun(now, old(self)@.timeout),
                Err(e) => !old(self)@.admits(now, transport) && e == old(self)@.rejection::<E>(
                    now,
                    transport,
                ),
            },
            final(self)@ == old(self)@.after_invoke(now, transport),
            final(self)@.wf(),
            final(self).transport() == old(self).transport(),
    {
        match self.check_ready(now, transport) {
            Readiness::Ready => self.invoke(req, now, transport),
            Readiness::NotReady => Err(InvokeError::RateLimited),
            Readiness::Shed => Err(InvokeError::Shed),
        }
    }

    /// Advances one call by one event.
    pub fn step<Resp, E>(&mut self, state: CallState<Resp, E>, event: Event<Resp, E>) -> (next:
        CallState<Resp, E>)
        ensures
            (final(self)@, next) == old(self)@.step(state, event),
            old(self)@.wf() ==> final(self)@.wf(),
            final(self).transport() == old(self).transport(),
    {
        match state {
            CallState::Idle => match event {
                Event::Poll { now, transport } => match self.check_ready(now, transport) {
                    Readiness::Ready => CallState::Admitted,
                    Readiness::NotReady => CallState::Failed(InvokeError::RateLimited),
                    Readiness::Shed => CallState::Failed(InvokeError::Shed),
                },
                other => CallState::Idle.on_event(other),
            },
            CallState::Admitted => match event {
                Event::Invoke { now, transport } => match self.start(now, transport) {
                    Ok(pending) => CallState::InFlight(pending),
                    Err(e) => CallState::Failed(e),
                },
                other => CallState::Admitted.on_event(other),
            },
            other => other.on_event(event),
        }
    }
}

} // verus!
