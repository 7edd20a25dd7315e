//! Whole calls.
//!
//! A call is modelled as the sequence of events that the transport reports,
//! folded through [`step`] from the initial state. The lemmas here state
//! what every such call looks like: how many attempts it can take, which
//! delays separate them, and how it ends.

use crate::dispatch::{
    backoff_delay, can_retry, empty_body_message, fail, initial, proceed, retry, step, ActionView,
    DispatchView, EventView, Phase,
};
use crate::error::{
    classify, error_message, error_payload, is_api_reported, is_server_error, is_success,
    is_transient, ErrorView,
};
use vstd::arithmetic::power2::{
    lemma2_to64, lemma_pow2_strictly_increases, lemma_pow2_unfold, pow2,
};
use vstd::prelude::*;

verus! {

/// The state reached from `s` after the events, in order.
pub open spec fn run(s: DispatchView, events: Seq<EventView>) -> DispatchView
    decreases events.len(),
{
    if events.len() == 0 {
        s
    } else {
        step(run(s, events.drop_last()), events.last()).0
    }
}

/// The actions that the events call for, one per event.
pub open spec fn trace(s: DispatchView, events: Seq<EventView>) -> Seq<ActionView>
    decreases events.len(),
{
    if events.len() == 0 {
        Seq::empty()
    } else {
        trace(s, events.drop_last()).push(step(run(s, events.drop_last()), events.last()).1)
    }
}

/// An outcome of an attempt that is retried while the budget lasts: a
/// transport failure, or a response with status 429 or 5xx.
pub open spec fn is_transient_event(e: EventView) -> bool {
    match e {
        EventView::TransportFailed(_) => true,
        EventView::Status(code) => is_transient(code),
        _ => false,
    }
}

/// The first `k` retries of the backoff schedule.
pub open spec fn schedule(k: nat) -> Seq<ActionView> {
    Seq::new(k, |i: int| ActionView::RetryAfter(backoff_delay(i as nat)))
}

/// How many of the actions ask for another attempt.
pub open spec fn retry_count(actions: Seq<ActionView>) -> nat
    decreases actions.len(),
{
    if actions.len() == 0 {
        0
    } else if actions.last() is RetryAfter {
        retry_count(actions.drop_last()) + 1
    } else {
        retry_count(actions.drop_last())
    }
}

/// The seconds that the actions ask the transport to wait, in total.
pub open spec fn total_delay(actions: Seq<ActionView>) -> nat
    decreases actions.len(),
{
    if actions.len() == 0 {
        0
    } else {
        match actions.last() {
            ActionView::RetryAfter(secs) => total_delay(actions.drop_last()) + secs,
            _ => total_delay(actions.drop_last()),
        }
    }
}

/// The sum of the first `k` delays of the backoff schedule.
pub open spec fn total_backoff(k: nat) -> nat
    decreases k,
{
    if k == 0 {
        0
    } else {
        total_backoff((k - 1) as nat) + backoff_delay((k - 1) as nat)
    }
}

/// One more event extends the run by one step and the trace by one action.
pub proof fn lemma_run_push(s: DispatchView, events: Seq<EventView>, e: EventView)
    ensures
        run(s, events.push(e)) == step(run(s, events), e).0,
        trace(s, events.push(e)) == trace(s, events).push(step(run(s, events), e).1),
{
    assert(events.push(e).drop_last() =~= events);
}

/// A trace has one action per event.
pub proof fn lemma_trace_len(s: DispatchView, events: Seq<EventView>)
    ensures
        trace(s, events).len() == events.len(),
    decreases events.len(),
{
    if events.len() > 0 {
        lemma_trace_len(s, events.drop_last());
    }
}

/// The backoff delay never decreases from one attempt to the next, and
/// doubles as long as it fits in 64 bits.
pub proof fn lemma_backoff_monotonic(i: nat, j: nat)
    requires
        i <= j,
    ensures
        backoff_delay(i) <= backoff_delay(j),
        j < 64 && i < j ==> backoff_delay(i) < backoff_delay(j),
        i + 1 < 64 ==> backoff_delay(i + 1) == 2 * backoff_delay(i),
        backoff_delay(0) == 1,
{
    lemma2_to64();
    if i < j {
        lemma_pow2_strictly_increases(i, j);
    }
    if i < 64 {
        lemma_pow2_strictly_increases(i, 64);
    }
    lemma_pow2_unfold(i + 1);
}

/// The first `k` delays add up to `2^k - 1` seconds, for up to 64 retries.
pub proof fn lemma_total_backoff(k: nat)
    requires
        k <= 64,
    ensures
        total_backoff(k) == pow2(k) - 1,
    decreases k,
{
    lemma2_to64();
    if k > 0 {
        lemma_total_backoff((k - 1) as nat);
        lemma_pow2_unfold(k);
    }
}

/// A step never changes the budget, never moves past it, and asks for a
/// retry only by consuming one unit of it, with the delay scheduled for the
/// attempt that just failed.
pub proof fn lemma_step_within_budget(s: DispatchView, e: EventView)
    ensures
        step(s, e).0.max_retries == s.max_retries,
        s.attempt <= s.max_retries ==> step(s, e).0.attempt <= s.max_retries,
        step(s, e).1 is RetryAfter <==> s.phase == Phase::Sending && can_retry(s)
            && is_transient_event(e),
        step(s, e).1 is RetryAfter ==> step(s, e) == retry(s),
        !(step(s, e).1 is RetryAfter) ==> step(s, e).0.attempt == s.attempt,
{
}

/// Over a whole call the number of retries is the number of attempts past
/// the first, it never exceeds the retry budget, and the time waited is the
/// sum of the scheduled delays.
pub proof fn lemma_retries_bounded(max_retries: nat, events: Seq<EventView>)
    ensures
        run(initial(max_retries), events).max_retries == max_retries,
        retry_count(trace(initial(max_retries), events)) == run(
            initial(max_retries),
            events,
        ).attempt,
        retry_count(trace(initial(max_retries), events)) <= max_retries,
        total_delay(trace(initial(max_retries), events)) == total_backoff(
            run(initial(max_retries), events).attempt,
        ),
    decreases events.len(),
{
    let s0 = initial(max_retries);
    if events.len() > 0 {
        let front = events.drop_last();
        lemma_retries_bounded(max_retries, front);
        lemma_step_within_budget(run(s0, front), events.last());
        let actions = trace(s0, events);
        assert(actions.drop_last() =~= trace(s0, front));
    }
}

/// How many more events a call can take before it is over, at most: one per
/// retry left in the budget, and one per phase still ahead.
pub open spec fn steps_left(s: DispatchView) -> nat {
    match s.phase {
        Phase::Sending => if s.attempt <= s.max_retries {
            (s.max_retries - s.attempt + 3) as nat
        } else {
            3
        },
        Phase::ReadingSuccess => 2,
        Phase::ReadingFailure(_) => 1,
        Phase::Decoding => 1,
        Phase::Finished => 0,
    }
}

/// Every event brings a call that is not over closer to its end.
pub proof fn lemma_step_makes_progress(s: DispatchView, e: EventView)
    ensures
        s.phase != Phase::Finished ==> steps_left(step(s, e).0) < steps_left(s),
        s.phase == Phase::Finished ==> steps_left(step(s, e).0) == 0,
{
}

/// A call is over after at most `max_retries + 3` events: the budget bounds
/// the attempts, and nothing but a retry keeps a call sending.
pub proof fn lemma_call_ends(max_retries: nat, events: Seq<EventView>)
    ensures
        steps_left(run(initial(max_retries), events)) + events.len() <= max_retries + 3
            || run(initial(max_retries), events).phase == Phase::Finished,
        events.len() >= max_retries + 3 ==> run(initial(max_retries), events).phase
            == Phase::Finished,
    decreases events.len(),
{
    if events.len() > 0 {
        lemma_call_ends(max_retries, events.drop_last());
        lemma_step_makes_progress(
            run(initial(max_retries), events.drop_last()),
            events.last(),
        );
    }
}

/// Retries come first and on schedule: if the action at position `i` of a
/// call asks for a retry, then so does every action before it, `i` is within
/// the budget, and the delay is the one scheduled for attempt `i`. So the
/// delays of a call never decrease, and double while they fit in 64 bits.
pub proof fn lemma_retries_come_first(max_retries: nat, events: Seq<EventView>, i: int)
    requires
        0 <= i < events.len(),
        trace(initial(max_retries), events)[i] is RetryAfter,
    ensures
        i < max_retries,
        trace(initial(max_retries), events)[i] == ActionView::RetryAfter(backoff_delay(i as nat)),
        forall|j: int| 0 <= j < i ==> (#[trigger] trace(initial(max_retries), events)[j])
            is RetryAfter,
        run(initial(max_retries), events.take(i + 1)) == (DispatchView {
            attempt: (i + 1) as nat,
            max_retries,
            phase: Phase::Sending,
        }),
    decreases events.len(),
{
    let s0 = initial(max_retries);
    let front = events.drop_last();
    lemma_trace_len(s0, front);
    if i < events.len() - 1 {
        lemma_retries_come_first(max_retries, front, i);
        assert(events.take(i + 1) =~= front.take(i + 1));
    } else {
        assert(events.take(i + 1) =~= events);
        lemma_step_within_budget(run(s0, front), events.last());
        lemma_sending_means_only_retries(max_retries, front);
    }
}

/// A call that is still sending has seen nothing but retries, one per
/// event.
pub proof fn lemma_sending_means_only_retries(max_retries: nat, events: Seq<EventView>)
    requires
        run(initial(max_retries), events).phase == Phase::Sending,
    ensures
        run(initial(max_retries), events).attempt == events.len(),
        run(initial(max_retries), events).max_retries == max_retries,
        forall|j: int|
            0 <= j < events.len() ==> (#[trigger] trace(initial(max_retries), events)[j])
                is RetryAfter,
    decreases events.len(),
{
    let s0 = initial(max_retries);
    if events.len() > 0 {
        let front = events.drop_last();
        let before = run(s0, front);
        lemma_step_within_budget(before, events.last());
        lemma_finished_is_final(before, events.last());
        lemma_sending_means_only_retries(max_retries, front);
        lemma_trace_len(s0, front);
    }
}

/// As long as the budget lasts, transient outcomes are answered by the
/// backoff schedule and leave the call sending.
pub proof fn lemma_transient_prefix(max_retries: nat, failures: Seq<EventView>)
    requires
        failures.len() <= max_retries,
        forall|i: int| 0 <= i < failures.len() ==> is_transient_event(#[trigger] failures[i]),
    ensures
        run(initial(max_retries), failures) == (DispatchView {
            attempt: failures.len(),
            max_retries,
            phase: Phase::Sending,
        }),
        trace(initial(max_retries), failures) == schedule(failures.len()),
    decreases failures.len(),
{
    if failures.len() > 0 {
        lemma_transient_prefix(max_retries, failures.drop_last());
    }
}

/// A call that meets `k` transient outcomes, `k` within the budget, and
/// then a success response with a body that decodes, makes exactly `k + 1`
/// attempts, waits `2^0, 2^1, ..` seconds between them, and completes.
pub proof fn lemma_recovers_after_transient_failures(
    max_retries: nat,
    failures: Seq<EventView>,
    code: u16,
    body: Seq<char>,
)
    requires
        failures.len() <= max_retries,
        forall|i: int| 0 <= i < failures.len() ==> is_transient_event(#[trigger] failures[i]),
        is_success(code),
        body.len() > 0,
    ensures
        ({
            let events = failures + seq![
                EventView::Status(code),
                EventView::Body(body),
                EventView::Decoded,
            ];
            let actions = trace(initial(max_retries), events);
            &&& actions == schedule(failures.len()) + seq![
                ActionView::ReadBody,
                ActionView::Decode,
                ActionView::Complete,
            ]
            &&& run(initial(max_retries), events).phase == Phase::Finished
            &&& run(initial(max_retries), events).attempt == failures.len()
            &&& total_delay(actions) == total_backoff(failures.len())
        }),
{
    let s0 = initial(max_retries);
    lemma_transient_prefix(max_retries, failures);
    let e1 = failures.push(EventView::Status(code));
    let e2 = e1.push(EventView::Body(body));
    let e3 = e2.push(EventView::Decoded);
    lemma_run_push(s0, failures, EventView::Status(code));
    lemma_run_push(s0, e1, EventView::Body(body));
    lemma_run_push(s0, e2, EventView::Decoded);
    assert(e3 =~= failures + seq![
        EventView::Status(code),
        EventView::Body(body),
        EventView::Decoded,
    ]);
    lemma_retries_bounded(max_retries, e3);
}

/// A call whose every attempt, `max_retries + 1` of them, is answered with
/// 429 or 5xx retries `max_retries` times on schedule, then reads the body
/// of the last response and fails with the error classified from it: a
/// server error for 5xx, a rate-limit error for 429. No action after the
/// last response asks for another attempt.
pub proof fn lemma_exhausted_budget(max_retries: nat, codes: Seq<u16>, body: Seq<char>)
    requires
        codes.len() == max_retries + 1,
        forall|i: int| 0 <= i < codes.len() ==> is_transient(#[trigger] codes[i]),
    ensures
        ({
            let events = codes.map_values(|c: u16| EventView::Status(c)).push(
                EventView::Body(body),
            );
            let message = error_message(error_payload(body));
            let actions = trace(initial(max_retries), events);
            &&& actions == schedule(max_retries) + seq![
                ActionView::ReadBody,
                ActionView::Fail(classify(codes.last(), message)),
            ]
            &&& run(initial(max_retries), events).phase == Phase::Finished
            &&& is_server_error(codes.last()) ==> actions.last() == ActionView::Fail(
                ErrorView::Server(message),
            )
            &&& codes.last() == 429 ==> actions.last() == ActionView::Fail(
                ErrorView::RateLimit(message),
            )
        }),
{
    let s0 = initial(max_retries);
    let statuses = codes.map_values(|c: u16| EventView::Status(c));
    let failures = statuses.drop_last();
    lemma_transient_prefix(max_retries, failures);
    lemma_run_push(s0, failures, EventView::Status(codes.last()));
    lemma_run_push(s0, statuses, EventView::Body(body));
}

/// A call whose every attempt fails in the transport retries `max_retries`
/// times on schedule and then fails with the last transport error.
pub proof fn lemma_exhausted_by_transport(
    max_retries: nat,
    failures: Seq<EventView>,
    reason: Seq<char>,
)
    requires
        failures.len() == max_retries,
        forall|i: int| 0 <= i < failures.len() ==> is_transient_event(#[trigger] failures[i]),
    ensures
        ({
            let events = failures.push(EventView::TransportFailed(reason));
            &&& trace(initial(max_retries), events) == schedule(max_retries).push(
                ActionView::Fail(ErrorView::Request(reason)),
            )
            &&& run(initial(max_retries), events).phase == Phase::Finished
        }),
{
    lemma_transient_prefix(max_retries, failures);
    lemma_run_push(initial(max_retries), failures, EventView::TransportFailed(reason));
}

/// A response that is neither a success nor transient is never retried,
/// whatever budget is left: its body is read and the call fails with the
/// error classified from it. For 404 that is the not-found error.
pub proof fn lemma_terminal_status_not_retried(s: DispatchView, code: u16, body: Seq<char>)
    requires
        s.phase == Phase::Sending,
        !is_success(code),
        !is_transient(code),
    ensures
        step(s, EventView::Status(code)) == proceed(
            s,
            Phase::ReadingFailure(code),
            ActionView::ReadBody,
        ),
        step(step(s, EventView::Status(code)).0, EventView::Body(body)).1 == ActionView::Fail(
            classify(code, error_message(error_payload(body))),
        ),
        step(step(s, EventView::Status(code)).0, EventView::Body(body)).0.phase
            == Phase::Finished,
        step(step(s, EventView::Status(code)).0, EventView::Body(body)).0.attempt == s.attempt,
        code == 404 ==> classify(code, error_message(error_payload(body)))
            == ErrorView::NotFound(error_message(error_payload(body))),
{
}

/// A success response never yields a value unless its body was decoded: an
/// empty body and a body that does not decode both end the call with a
/// decode failure, which is none of the kinds reported by the API.
pub proof fn lemma_undecodable_success(s: DispatchView, e: EventView, reason: Seq<char>)
    ensures
        s.phase == Phase::ReadingSuccess ==> step(s, EventView::Body(Seq::empty())) == fail(
            s,
            ErrorView::Decode(empty_body_message()),
        ),
        s.phase == Phase::Decoding ==> step(s, EventView::DecodeFailed(reason)) == fail(
            s,
            ErrorView::Decode(reason),
        ),
        !is_api_reported(ErrorView::Decode(reason)),
        step(s, e).1 is Complete <==> s.phase == Phase::Decoding && e is Decoded,
        step(s, e).1 is Decode <==> s.phase == Phase::ReadingSuccess && e is Body && e->Body_0.len()
            > 0,
{
}

/// A call ends exactly when it completes or fails, and stays ended: nothing
/// reported afterwards is retried or completes.
pub proof fn lemma_finished_is_final(s: DispatchView, e: EventView)
    ensures
        (step(s, e).1 is Complete || step(s, e).1 is Fail) <==> step(s, e).0.phase
            == Phase::Finished,
        s.phase == Phase::Finished ==> step(s, e) == fail(s, ErrorView::Unknown),
{
}

} // verus!
