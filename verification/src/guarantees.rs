//! What holds of every pipeline, proved over the model that the contracts
//! of the executable functions are stated in.

use vstd::prelude::*;
use crate::call::{CallState, Event, PendingCall};
use crate::pipeline::{Attempt, Config, PipelineView};
use crate::rate_limit::RateLimitView;
use crate::service::{InvokeError, Readiness};

verus! {

/// The window check and the taking of a token keep the token count within
/// the capacity, and never touch the capacity or the window length.
pub proof fn lemma_limiter_stays_well_formed(s: RateLimitView, now: nat, admitted_below: bool)
    requires
        s.wf(),
    ensures
        s.refresh(now).wf(),
        s.take(now).wf(),
        s.after_invoke(now, admitted_below).wf(),
        s.after_invoke(now, admitted_below).capacity == s.capacity,
        s.after_invoke(now, admitted_below).window == s.window,
{
}

/// A second window check at the same instant changes nothing, so a poll
/// followed by an invocation at one instant is the invocation alone.
pub proof fn lemma_poll_then_invoke(v: PipelineView, now: u64, transport: Readiness)
    ensures
        v.after_poll(now).after_poll(now) == v.after_poll(now),
        v.after_poll(now).after_invoke(now, transport) == v.after_invoke(now, transport),
        v.after_poll(now).admits(now, transport) == v.admits(now, transport),
        v.readiness(now, transport) is Ready <==> v.admits(now, transport),
{
}

/// No step of a call changes the configuration, and every step keeps the
/// rate limiter well formed.
pub proof fn lemma_step_keeps_configuration<Resp, E>(
    v: PipelineView,
    state: CallState<Resp, E>,
    event: Event<Resp, E>,
)
    requires
        v.wf(),
    ensures
        v.step(state, event).0.wf(),
        v.step(state, event).0.timeout == v.timeout,
        v.step(state, event).0.limiter.capacity == v.limiter.capacity,
        v.step(state, event).0.limiter.window == v.limiter.window,
{
}

/// A call that is over stays as it is, and costs the pipeline nothing,
/// whatever is reported afterwards.
pub proof fn lemma_final_state_is_kept<Resp, E>(
    v: PipelineView,
    state: CallState<Resp, E>,
    events: Seq<Event<Resp, E>>,
)
    requires
        state.is_final(),
    ensures
        v.run(state, events) == (v, state),
    decreases events.len(),
{
    if events.len() > 0 {
        lemma_final_state_is_kept(v, state, events.drop_first());
    }
}

/// While the calls stay inside the current window and each is handed to the
/// transport, each takes exactly one token.
pub proof fn lemma_admitted_calls_take_tokens(v: PipelineView, calls: Seq<Attempt>)
    requires
        v.wf(),
        forall|i: int| 0 <= i < calls.len() ==> !v.limiter.expired((#[trigger] calls[i]).now as nat),
        forall|i: int|
            0 <= i < calls.len() ==> v.after_calls(#[trigger] calls.take(i)).admits(
                calls[i].now,
                calls[i].transport,
            ),
    ensures
        calls.len() <= v.limiter.tokens_available,
        v.after_calls(calls) == (PipelineView {
            limiter: RateLimitView {
                tokens_available: (v.limiter.tokens_available - calls.len()) as nat,
                ..v.limiter
            },
            ..v
        }),
    decreases calls.len(),
{
    if calls.len() > 0 {
        let before = calls.drop_last();
        assert forall|i: int| 0 <= i < before.len() implies v.after_calls(
            #[trigger] before.take(i),
        ).admits(before[i].now, before[i].transport) by {
            assert(before.take(i) =~= calls.take(i));
        }
        lemma_admitted_calls_take_tokens(v, before);
        assert(calls.take(calls.len() - 1) =~= before);
    }
}

/// The rate limit: once a window has handed as many calls to the transport
/// as the capacity allows, one more call inside that window fails with
/// `RateLimited`; and the first call at or after the window's end is handed
/// on again, provided the capacity is not zero.
pub proof fn lemma_rate_limit<E>(v: PipelineView, calls: Seq<Attempt>, next: u64, later: u64)
    requires
        v.wf(),
        calls.len() == v.limiter.capacity,
        forall|i: int| 0 <= i < calls.len() ==> !v.limiter.expired((#[trigger] calls[i]).now as nat),
        forall|i: int|
            0 <= i < calls.len() ==> v.after_calls(#[trigger] calls.take(i)).admits(
                calls[i].now,
                calls[i].transport,
            ),
        !v.limiter.expired(next as nat),
        v.limiter.expired(later as nat),
    ensures
        v.after_calls(calls).outcome::<E>(next, Readiness::Ready) == Err::<
            PendingCall,
            InvokeError<E>,
        >(InvokeError::RateLimited),
        v.limiter.capacity > 0 ==> v.after_calls(calls).after_invoke(
            next,
            Readiness::Ready,
        ).admits(later, Readiness::Ready),
{
    lemma_admitted_calls_take_tokens(v, calls);
}

/// The first call at or after the end of a window opens a new window and is
/// handed to the transport, whatever the old window held, provided the
/// transport is ready and the capacity is not zero.
pub proof fn lemma_new_window_admits<E>(v: PipelineView, now: u64)
    requires
        v.limiter.capacity > 0,
        v.limiter.expired(now as nat),
    ensures
        v.outcome::<E>(now, Readiness::Ready) == Ok::<PendingCall, InvokeError<E>>(
            PendingCall::begun(now, v.timeout),
        ),
        v.after_invoke(now, Readiness::Ready).limiter == (RateLimitView {
            tokens_available: (v.limiter.capacity - 1) as nat,
            window_start: now as nat,
            ..v.limiter
        }),
{
}

/// Load shedding: where the transport is not ready, the call fails with
/// `Shed` whatever the rate limiter holds, no token is taken, and the call
/// never comes to be in flight, whatever is reported afterwards.
pub proof fn lemma_unready_transport_is_shed<Resp, E>(
    v: PipelineView,
    now: u64,
    transport: Readiness,
    later: Seq<Event<Resp, E>>,
)
    requires
        !(transport is Ready),
    ensures
        v.readiness(now, transport) is Shed,
        v.outcome::<E>(now, transport) == Err::<PendingCall, InvokeError<E>>(InvokeError::Shed),
        v.after_invoke(now, transport) == v.after_poll(now),
        v.after_poll(now).limiter.tokens_available == v.limiter.refresh(
            now as nat,
        ).tokens_available,
        v.run(CallState::<Resp, E>::Idle, seq![Event::Poll { now, transport }] + later) == (
            v.after_poll(now),
            CallState::<Resp, E>::Failed(InvokeError::Shed),
        ),
        v.run(CallState::<Resp, E>::Admitted, seq![Event::Invoke { now, transport }] + later) == (
            v.after_poll(now),
            CallState::<Resp, E>::Failed(InvokeError::Shed),
        ),
{
    let failed = CallState::<Resp, E>::Failed(InvokeError::Shed);
    let poll = seq![Event::<Resp, E>::Poll { now, transport }] + later;
    let invoke = seq![Event::<Resp, E>::Invoke { now, transport }] + later;
    assert(poll.drop_first() =~= later);
    assert(invoke.drop_first() =~= later);
    lemma_final_state_is_kept(v.after_poll(now), failed, later);
}

/// The deadline of a call stands for the configured timeout: an answer is
/// late exactly if it took longer than the timeout, and the clock is at or
/// past the deadline whenever the timeout has run out.
pub proof fn lemma_deadline_is_timeout(started_at: u64, duration: u64, at: u64)
    ensures
        at > PendingCall::begun(started_at, duration).deadline <==> at - started_at > duration,
        at - started_at >= duration ==> at >= PendingCall::begun(started_at, duration).deadline,
        PendingCall::begun(started_at, duration).started_at == started_at,
        PendingCall::begun(started_at, duration).deadline >= started_at,
{
}

/// Whether `event` ends the call `pending` by timeout: an answer from the
/// transport after the deadline, or a clock reading at or past the deadline.
pub open spec fn overdue<Resp, E>(pending: PendingCall, event: Event<Resp, E>) -> bool {
    match event {
        Event::Response { at, .. } => at > pending.deadline,
        Event::Failure { at, .. } => at > pending.deadline,
        Event::Tick { at } => at >= pending.deadline,
        _ => false,
    }
}

/// The timeout: a call whose deadline passes before the transport answers
/// fails with `Timeout`, and stays so whether the transport succeeds or
/// fails afterwards. The pipeline itself is left as it was.
pub proof fn lemma_late_answer_times_out<Resp, E>(
    v: PipelineView,
    pending: PendingCall,
    first: Event<Resp, E>,
    later: Seq<Event<Resp, E>>,
)
    requires
        overdue(pending, first),
    ensures
        pending.resolved(first) == CallState::<Resp, E>::Failed(InvokeError::Timeout),
        v.run(CallState::InFlight(pending), seq![first] + later) == (
            v,
            CallState::<Resp, E>::Failed(InvokeError::Timeout),
        ),
{
    let events = seq![first] + later;
    assert(events.drop_first() =~= later);
    assert(events.first() == first);
    lemma_final_state_is_kept(v, CallState::<Resp, E>::Failed(InvokeError::Timeout), later);
}

/// An answer that arrives no later than the deadline is the call's result:
/// a response completes it, and the transport's error is passed on as it is.
pub proof fn lemma_timely_answer_is_kept<Resp, E>(
    pending: PendingCall,
    at: u64,
    response: Resp,
    error: E,
)
    requires
        at <= pending.deadline,
    ensures
        pending.resolved(Event::<Resp, E>::Response { at, response }) == CallState::<
            Resp,
            E,
        >::Completed(response),
        pending.resolved(Event::<Resp, E>::Failure { at, error }) == CallState::<Resp, E>::Failed(
            InvokeError::Inner(error),
        ),
{
}

/// A whole call, from the poll to the transport's answer. A call that the
/// pipeline lets through and that the transport answers within the
/// configured timeout ends with that answer; one that the transport answers
/// later ends with `Timeout`, whatever the answer is and whatever is
/// reported after it. Either way the call costs one token and nothing else.
pub proof fn lemma_call_ends_with_answer_or_timeout<Resp, E>(
    v: PipelineView,
    now: u64,
    transport: Readiness,
    answer: Event<Resp, E>,
    later: Seq<Event<Resp, E>>,
)
    requires
        v.admits(now, transport),
        answer is Response || answer is Failure,
    ensures
        ({
            let events = seq![Event::Poll { now, transport }, Event::Invoke { now, transport }, answer]
                + later;
            let took = match answer {
                Event::Response { at, .. } => at - now,
                Event::Failure { at, .. } => at - now,
                _ => 0,
            };
            let end = if took > v.timeout {
                CallState::Failed(InvokeError::Timeout)
            } else {
                match answer {
                    Event::Response { response, .. } => CallState::Completed(response),
                    Event::Failure { error, .. } => CallState::Failed(InvokeError::Inner(error)),
                    _ => CallState::Idle,
                }
            };
            v.run(CallState::Idle, events) == (v.after_invoke(now, transport), end)
        }),
{
    let events = seq![Event::Poll { now, transport }, Event::Invoke { now, transport }, answer]
        + later;
    let after_poll = events.drop_first();
    let after_invoke = after_poll.drop_first();
    assert(after_invoke.drop_first() =~= later);
    assert(after_poll.first() == Event::<Resp, E>::Invoke { now, transport });
    assert(after_invoke.first() == answer);
    let pending = PendingCall::begun(now, v.timeout);
    lemma_poll_then_invoke(v, now, transport);
    assert(v.step(CallState::<Resp, E>::Idle, events.first()) == (
        v.after_poll(now),
        CallState::<Resp, E>::Admitted,
    ));
    assert(v.after_poll(now).step(CallState::<Resp, E>::Admitted, after_poll.first()) == (
        v.after_invoke(now, transport),
        CallState::<Resp, E>::InFlight(pending),
    ));
    let w = v.after_invoke(now, transport);
    let end = pending.resolved(answer);
    assert(w.step(CallState::<Resp, E>::InFlight(pending), answer) == (w, end));
    lemma_final_state_is_kept(w, end, later);
    assert(w.run(CallState::<Resp, E>::InFlight(pending), after_invoke) == (w, end));
    assert(v.after_poll(now).run(CallState::<Resp, E>::Admitted, after_poll) == (w, end));
}

/// A whole call that is turned away: it fails at the poll with `Shed` if
/// the transport is not ready and with `RateLimited` otherwise, takes no
/// token, and never comes to be in flight, whatever is reported afterwards.
pub proof fn lemma_rejected_call_never_starts<Resp, E>(
    v: PipelineView,
    now: u64,
    transport: Readiness,
    later: Seq<Event<Resp, E>>,
)
    requires
        !v.admits(now, transport),
    ensures
        v.run(CallState::<Resp, E>::Idle, seq![Event::Poll { now, transport }] + later) == (
            v.after_poll(now),
            CallState::<Resp, E>::Failed(v.rejection(now, transport)),
        ),
        v.after_invoke(now, transport) == v.after_poll(now),
{
    let events = seq![Event::<Resp, E>::Poll { now, transport }] + later;
    assert(events.drop_first() =~= later);
    lemma_final_state_is_kept(
        v.after_poll(now),
        CallState::<Resp, E>::Failed(v.rejection(now, transport)),
        later,
    );
}

/// Two pipelines built from the same configuration decide the same calls
/// alike and are left in the same state: the decisions depend on the
/// configuration, the times of the calls and the transport's answers, and on
/// nothing else.
pub proof fn lemma_same_configuration_same_decisions<E>(
    a: PipelineView,
    b: PipelineView,
    config: Config,
    attempts: Seq<Attempt>,
)
    requires
        a == PipelineView::fresh(config),
        b == PipelineView::fresh(config),
    ensures
        a.decisions::<E>(attempts) == b.decisions::<E>(attempts),
        a.after_calls(attempts) == b.after_calls(attempts),
{
}

} // verus!
