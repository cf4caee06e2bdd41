//! Deadlines, sleeps, intervals and timeouts.

pub mod interval;
pub mod sleep;
pub mod timeout;

use vstd::prelude::*;

use crate::clock::{Duration, Instant, NANOS_PER_SEC};
use crate::time::interval::{Interval, MissedTickBehavior};
use crate::time::sleep::{sleep_end, Sleep, ZeroBehavior};
use crate::time::timeout::Timeout;

verus! {

/// The point `duration` after `base`, or the clock's last point where the sum
/// lies beyond it.
pub open spec fn deadline_after_spec(base: int, duration: int) -> int {
    if base + duration <= crate::clock::INSTANT_MAX_NANOS {
        base + duration
    } else {
        crate::clock::INSTANT_MAX_NANOS as int
    }
}

/// Add a duration, saturating at the clock's last representable point.
pub fn deadline_after(base: Instant, duration: Duration) -> (r: Instant)
    ensures
        r@ == deadline_after_spec(base@, duration@),
{
    if let Some(deadline) = base.checked_add(duration) {
        return deadline;
    }
    saturating_deadline(base, duration)
}

/// Find the largest addition that the clock can express, by bisection on the
/// nanoseconds of `duration`.
pub fn saturating_deadline(base: Instant, duration: Duration) -> (r: Instant)
    ensures
        r@ == deadline_after_spec(base@, duration@),
{
    let mut low: u128 = 0;
    let mut high: u128 = duration.as_nanos();
    let mut result: Instant = base;
    proof {
        use_type_invariant(&base);
        use_type_invariant(&duration);
    }
    while low < high
        invariant
            low <= high <= duration@ <= crate::clock::DURATION_MAX_NANOS,
            base@ <= crate::clock::INSTANT_MAX_NANOS,
            base@ + low <= crate::clock::INSTANT_MAX_NANOS,
            high == duration@ || base@ + high + 1 > crate::clock::INSTANT_MAX_NANOS,
            result@ == base@ + low,
        decreases high - low,
    {
        let span: u128 = high - low;
        let middle: u128 = low + (span / 2 + span % 2);
        let candidate: Duration = Duration::new(
            (middle / NANOS_PER_SEC) as u64,
            (middle % NANOS_PER_SEC) as u32,
        );
        if let Some(deadline) = base.checked_add(candidate) {
            result = deadline;
            low = middle;
        } else {
            high = middle - 1;
        }
    }
    result
}

/// A deadline is the exact sum, or the clock's last point, to which nothing can
/// be added; adding to that point leaves it where it is.
pub proof fn deadlines_saturate(base: Instant, duration: Duration, more: Duration)
    requires
        base.wf(),
        duration.wf(),
        more.wf(),
    ensures
        base@ <= deadline_after_spec(base@, duration@) <= crate::clock::INSTANT_MAX_NANOS,
        deadline_after_spec(base@, duration@) != base@ + duration@ ==> {
            &&& deadline_after_spec(base@, duration@) == crate::clock::INSTANT_MAX_NANOS
            &&& deadline_after_spec(deadline_after_spec(base@, duration@), more@)
                == deadline_after_spec(base@, duration@)
        },
{
}

/// A sleep of `duration` from `now`. One shorter than 1 ms is over at once.
pub fn sleep(now: Instant, duration: Duration) -> (r: Sleep)
    ensures
        r.wf(),
        r.fresh(r.at(), ZeroBehavior::Immediate),
        r.at()@ == sleep_end(now@, duration@),
{
    Sleep::new(now, duration)
}

/// A sleep with control over what a tiny duration (shorter than 1 ms) does.
pub fn sleep_with_zero_behavior(now: Instant, duration: Duration, behavior: ZeroBehavior) -> (r:
    Sleep)
    ensures
        r.wf(),
        r.fresh(r.at(), behavior),
        r.at()@ == sleep_end(now@, duration@),
{
    Sleep::new_with_zero_behavior(now, duration, behavior)
}

/// A sleep that completes at the provided absolute deadline.
pub fn sleep_until(deadline: Instant) -> (r: Sleep)
    ensures
        r.wf(),
        r.fresh(deadline, ZeroBehavior::Immediate),
{
    Sleep::sleep_until(deadline)
}

/// An interval whose first tick comes one period after it is begun.
pub fn interval(period: Duration) -> (r: Interval)
    ensures
        r == (Interval {
            period,
            next_deadline: None,
            missed_tick_behavior: MissedTickBehavior::Skip,
        }),
{
    Interval::new(period)
}

/// An interval with the first tick scheduled to complete at
/// `first_tick_instant` and subsequent ticks every `period`.
pub fn interval_at(first_tick_instant: Instant, period: Duration) -> (r: Interval)
    ensures
        r == (Interval {
            period,
            next_deadline: Some(first_tick_instant),
            missed_tick_behavior: MissedTickBehavior::Skip,
        }),
{
    let mut iv = Interval::new(period);
    iv.next_deadline = Some(first_tick_instant);
    iv
}

/// A race of `future` against `duration` from `now`.
pub fn timeout<F>(now: Instant, duration: Duration, future: F) -> (r: Timeout<F>)
    ensures
        r.wf(),
        r.racing() == Some(future),
        r.clock() matches Some(sleep) && sleep.fresh(sleep.at(), ZeroBehavior::Immediate)
            && sleep.at()@ == deadline_after_spec(now@, duration@),
        !r.expired(),
{
    Timeout::new(future, now, duration)
}

/// A race of `future` against the absolute `deadline`. The inner future is
/// polled first; an immediately ready result wins even if the deadline has
/// already elapsed.
pub fn timeout_at<F>(deadline: Instant, future: F) -> (r: Timeout<F>)
    ensures
        r.wf(),
        r.racing() == Some(future),
        r.clock() matches Some(sleep) && sleep.fresh(deadline, ZeroBehavior::Immediate),
        !r.expired(),
{
    Timeout::new_at(future, deadline)
}

/// A deadline lies exactly as far ahead as was asked for, or at the last point of the clock
/// where that lies beyond it.
pub proof fn deadlines_lie_as_far_ahead_as_asked(
    point: Instant,
    span: Duration,
    deadline: Instant,
    bisected: Instant,
)
    requires
        call_ensures(deadline_after, (point, span), deadline),
        call_ensures(saturating_deadline, (point, span), bisected),
    ensures
        if point@ + span@ <= 9_223_372_036_854_775_807_999_999_999 {
            deadline@ == point@ + span@
        } else {
            deadline@ == 9_223_372_036_854_775_807_999_999_999
        },
        if point@ + span@ <= 9_223_372_036_854_775_807_999_999_999 {
            bisected@ == point@ + span@
        } else {
            bisected@ == 9_223_372_036_854_775_807_999_999_999
        },
{
}

/// The ways to make a sleep agree: it ends exactly as far ahead as was asked for, a tiny one
/// at once, and one that was given its deadline exactly there.
pub proof fn sleeps_end_as_far_ahead_as_asked(
    point: Instant,
    span: Duration,
    behavior: ZeroBehavior,
    plain: Sleep,
    chosen: Sleep,
    until: Sleep,
)
    requires
        call_ensures(sleep, (point, span), plain),
        call_ensures(sleep_with_zero_behavior, (point, span, behavior), chosen),
        call_ensures(sleep_until, (point,), until),
    ensures
        if span@ < 1_000_000 {
            plain.at()@ == point@
        } else if point@ + span@ <= 9_223_372_036_854_775_807_999_999_999 {
            plain.at()@ == point@ + span@
        } else {
            plain.at()@ == 9_223_372_036_854_775_807_999_999_999
        },
        if span@ < 1_000_000 {
            chosen.at()@ == point@
        } else if point@ + span@ <= 9_223_372_036_854_775_807_999_999_999 {
            chosen.at()@ == point@ + span@
        } else {
            chosen.at()@ == 9_223_372_036_854_775_807_999_999_999
        },
        until.at() == point,
        plain.behavior() is Immediate && chosen.behavior() == behavior
            && until.behavior() is Immediate,
        plain.held() is None && !plain.done() && !plain.yielded(),
        chosen.held() is None && !chosen.done() && !chosen.yielded(),
        until.held() is None && !until.done() && !until.yielded(),
{
}

/// A timeout races its future up to exactly as far ahead as was asked for, or to its
/// deadline.
pub proof fn timeouts_race_as_far_ahead_as_asked<F>(
    point: Instant,
    span: Duration,
    future: F,
    relative: Timeout<F>,
    absolute: Timeout<F>,
)
    requires
        call_ensures(timeout::<F>, (point, span, future), relative),
        call_ensures(timeout_at::<F>, (point, future), absolute),
    ensures
        relative.racing() == Some(future) && absolute.racing() == Some(future),
        !relative.expired() && !absolute.expired(),
        relative.clock() matches Some(race) && race.at()@ == if point@ + span@
            <= 9_223_372_036_854_775_807_999_999_999 {
            point@ + span@
        } else {
            9_223_372_036_854_775_807_999_999_999
        },
        absolute.clock() matches Some(race) && race.at() == point,
{
}

/// An interval has the period it was given, and its first tick where that was given too.
pub proof fn intervals_have_their_period(
    period: Duration,
    first: Instant,
    plain: Interval,
    timed: Interval,
)
    requires
        call_ensures(interval, (period,), plain),
        call_ensures(interval_at, (first, period), timed),
    ensures
        plain.period == period && timed.period == period,
        plain.next_deadline is None && timed.next_deadline == Some(first),
        plain.missed_tick_behavior is Skip && timed.missed_tick_behavior is Skip,
{
}

} // verus!
