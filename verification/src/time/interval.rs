//! Interval for periodic tick scheduling with drift compensation.

use vstd::prelude::*;

use crate::clock::{Duration, Instant};
use crate::time::{deadline_after, deadline_after_spec};

verus! {

/// What is left of `duration` beyond whole multiples of `divisor`.
pub fn duration_remainder(duration: Duration, divisor: Duration) -> (r: Duration)
    requires
        divisor@ != 0,
    ensures
        r@ == duration@ % divisor@,
{
    proof {
        use_type_invariant(&duration);
        use_type_invariant(&divisor);
        vstd::arithmetic::div_mod::lemma_mod_bound(duration@, divisor@);
    }
    let remainder: u128 = duration.as_nanos() % divisor.as_nanos();
    Duration::new((remainder / 1_000_000_000) as u64, (remainder % 1_000_000_000) as u32)
}

/// How to handle missed ticks for `Interval`.
#[derive(Debug, Clone, Copy, PartialEq, Eq, Structural)]
pub enum MissedTickBehavior {
    /// Skip missed ticks and schedule the next tick at the next future multiple.
    Skip,
    /// Return the number of missed ticks so the caller can run a catch-up loop.
    CatchUp,
}

/// Interval provides periodic ticks while maintaining a steady cadence: each
/// tick tries to occur at an integer multiple of the period relative to the
/// interval start. Deadline arithmetic saturates at the clock's last point.
pub struct Interval {
    pub period: Duration,
    /// The next absolute deadline for the interval. If `None`, the next tick
    /// will be scheduled relative to the current time.
    pub next_deadline: Option<Instant>,
    /// Behavior when ticks are missed.
    pub missed_tick_behavior: MissedTickBehavior,
}

/// A tick that has been begun and not yet counted: what is waited for first, and
/// what the schedule becomes once it is over.
#[derive(Debug, Clone, Copy, PartialEq, Eq, Structural)]
pub enum Tick {
    /// Sleep until the target, giving way once where it has passed.
    SleepUntil { target: Instant },
    /// Give way to the scheduler once.
    YieldOnce,
    /// Wait for nothing: `missed` ticks are due now.
    CatchUp { missed: u64, next: Instant },
}

/// The first point after `now` that lies a whole number of periods after `base`.
pub open spec fn next_boundary(base: int, period: int, now: int) -> int {
    base + ((now - base) / period + 1) * period
}

impl Interval {
    /// The deadline that a tick begun at `now` starts from.
    pub open spec fn base(self, now: int) -> int {
        match self.next_deadline {
            Some(deadline) => deadline@,
            None => deadline_after_spec(now, self.period@),
        }
    }

    pub fn new(period: Duration) -> (r: Self)
        ensures
            r.period == period,
            r.next_deadline is None,
            r.missed_tick_behavior == MissedTickBehavior::Skip,
    {
        Interval {
            period,
            next_deadline: None,
            missed_tick_behavior: MissedTickBehavior::Skip,
        }
    }

    /// Configure how missed ticks are handled.
    pub fn set_missed_tick_behavior(&mut self, behavior: MissedTickBehavior)
        ensures
            final(self).missed_tick_behavior == behavior,
            final(self).period == old(self).period,
            final(self).next_deadline == old(self).next_deadline,
    {
        self.missed_tick_behavior = behavior;
    }

    /// Reset the interval schedule so the next tick is computed relative to
    /// the time when it is begun (useful when you want to restart the cadence).
    pub fn reset(&mut self)
        ensures
            final(self).next_deadline is None,
            final(self).period == old(self).period,
            final(self).missed_tick_behavior == old(self).missed_tick_behavior,
    {
        self.next_deadline = None;
    }

    /// Begin a tick at `now`. The schedule stays as it is until the tick is
    /// completed, so a tick that is given up changes nothing.
    pub fn tick_at(&self, now: Instant) -> (tick: Tick)
        ensures
            tick_spec(*self, now@, tick),
    {
        let base_next: Instant = match self.next_deadline {
            Some(deadline) => deadline,
            None => deadline_after(now, self.period),
        };
        proof {
            use_type_invariant(&base_next);
            use_type_invariant(&now);
            use_type_invariant(&self.period);
        }
        match self.missed_tick_behavior {
            MissedTickBehavior::Skip => {
                if !base_next.is_due(now) {
                    return Tick::SleepUntil { target: base_next };
                }
                if self.period.is_zero() {
                    return Tick::SleepUntil { target: now };
                }
                // Advance directly to the first cadence boundary after `now`;
                // iterating once per missed period can otherwise make an old
                // interval stall the executor.
                let elapsed = now.saturating_duration_since(base_next);
                let target = deadline_after(
                    now,
                    self.period.minus(self.remainder(elapsed)),
                );
                proof {
                    lemma_boundary(base_next@, self.period@, now@);
                }
                Tick::SleepUntil { target }
            },
            MissedTickBehavior::CatchUp => {
                if !base_next.is_due(now) {
                    return Tick::SleepUntil { target: base_next };
                }
                if self.period.is_zero() {
                    return Tick::YieldOnce;
                }
                let elapsed = now.saturating_duration_since(base_next);
                proof {
                    lemma_boundary(base_next@, self.period@, now@);
                    vstd::arithmetic::div_mod::lemma_div_pos_is_pos(elapsed@, self.period@);
                    vstd::arithmetic::div_mod::lemma_div_is_ordered_by_denominator(
                        elapsed@,
                        1,
                        self.period@,
                    );
                }
                let boundaries: u128 = (elapsed.as_nanos() / self.period.as_nanos()).saturating_add(
                    1,
                );
                let missed: u64 = if boundaries <= u64::MAX as u128 {
                    boundaries as u64
                } else {
                    u64::MAX
                };
                // `missed` already accounts for the tick at `base_next`, so
                // adding another period would skip a tick.
                let next = deadline_after(now, self.period.minus(self.remainder(elapsed)));
                Tick::CatchUp { missed, next }
            },
        }
    }

    fn remainder(&self, elapsed: Duration) -> (r: Duration)
        requires
            self.period@ != 0,
        ensures
            r@ == elapsed@ % self.period@,
            r@ < self.period@,
    {
        proof {
            use_type_invariant(&self.period);
            vstd::arithmetic::div_mod::lemma_mod_bound(elapsed@, self.period@);
        }
        duration_remainder(elapsed, self.period)
    }

    /// Complete a tick once its wait is over, at `now`: move the schedule on and
    /// return the number of ticks to be processed. It is 1 but for a catch-up
    /// over several periods.
    pub fn complete_tick(&mut self, tick: Tick, now: Instant) -> (count: u64)
        ensures
            final(self).period == old(self).period,
            final(self).missed_tick_behavior == old(self).missed_tick_behavior,
            final(self).next_deadline matches Some(next) && next@ == match tick {
                Tick::SleepUntil { target } => deadline_after_spec(target@, old(self).period@),
                Tick::YieldOnce => now@,
                Tick::CatchUp { missed, next: planned } => planned@,
            },
            count == match tick {
                Tick::CatchUp { missed, next } => missed,
                _ => 1,
            },
    {
        match tick {
            Tick::SleepUntil { target } => {
                self.next_deadline = Some(deadline_after(target, self.period));
                1
            },
            Tick::YieldOnce => {
                self.next_deadline = Some(now);
                1
            },
            Tick::CatchUp { missed, next } => {
                self.next_deadline = Some(next);
                missed
            },
        }
    }
}

/// `tick` is the tick that an interval begins at `now`.
pub open spec fn tick_spec(interval: Interval, now: int, tick: Tick) -> bool {
    let base = interval.base(now);
    let period = interval.period@;
    match (interval.missed_tick_behavior, tick) {
        (MissedTickBehavior::Skip, Tick::SleepUntil { target }) => target@ == if base > now {
            base
        } else if period == 0 {
            now
        } else {
            saturated(next_boundary(base, period, now))
        },
        (MissedTickBehavior::CatchUp, Tick::SleepUntil { target }) => base > now && target@ == base,
        (MissedTickBehavior::CatchUp, Tick::YieldOnce) => base <= now && period == 0,
        (MissedTickBehavior::CatchUp, Tick::CatchUp { missed, next }) => {
            let boundaries = (now - base) / period + 1;
            &&& base <= now
            &&& period != 0
            &&& missed == if boundaries <= u64::MAX {
                boundaries
            } else {
                u64::MAX as int
            }
            &&& next@ == saturated(next_boundary(base, period, now))
        },
        _ => false,
    }
}

/// The point, or the clock's last where it lies beyond it.
pub open spec fn saturated(point: int) -> int {
    if point <= crate::clock::INSTANT_MAX_NANOS {
        point
    } else {
        crate::clock::INSTANT_MAX_NANOS as int
    }
}

proof fn lemma_boundary(base: int, period: int, now: int)
    requires
        period > 0,
        base <= now,
    ensures
        next_boundary(base, period, now) == now + (period - (now - base) % period),
        0 <= (now - base) % period < period,
{
    let elapsed = now - base;
    vstd::arithmetic::div_mod::lemma_fundamental_div_mod(elapsed, period);
    vstd::arithmetic::div_mod::lemma_mod_bound(elapsed, period);
    assert((elapsed / period + 1) * period == period * (elapsed / period) + period)
        by (nonlinear_arith);
}

/// A boundary of the cadence lies after `now`, by at most one period, and a
/// whole number of periods after the base.
pub proof fn boundary_is_the_first_after_now(base: int, period: int, now: int)
    requires
        period > 0,
        base <= now,
    ensures
        now < next_boundary(base, period, now) <= now + period,
        (next_boundary(base, period, now) - base) % period == 0,
{
    lemma_boundary(base, period, now);
    vstd::arithmetic::div_mod::lemma_mod_multiples_basic((now - base) / period + 1, period);
}

/// An overdue interval that catches up counts every boundary from its base to
/// `now` once: after the counted ticks the schedule is where that many periods
/// lead.
pub proof fn catch_up_loses_no_tick(interval: Interval, now: int, missed: u64, next: Instant)
    requires
        tick_spec(interval, now, Tick::CatchUp { missed, next }),
        interval.period.wf(),
        (now - interval.base(now)) / interval.period@ < u64::MAX,
        next_boundary(interval.base(now), interval.period@, now)
            <= crate::clock::INSTANT_MAX_NANOS,
    ensures
        next@ == interval.base(now) + missed * interval.period@,
        missed >= 1,
        now < next@,
{
    boundary_is_the_first_after_now(interval.base(now), interval.period@, now);
    vstd::arithmetic::div_mod::lemma_div_pos_is_pos(
        now - interval.base(now),
        interval.period@,
    );
}

/// A tick that sleeps has its target in the future but for a period of zero,
/// where the target is `now`, and but for the end of the clock.
pub proof fn skipping_never_targets_the_past(interval: Interval, now: Instant, target: Instant)
    requires
        interval.missed_tick_behavior == MissedTickBehavior::Skip,
        tick_spec(interval, now@, Tick::SleepUntil { target }),
        interval.period.wf(),
        now.wf(),
    ensures
        now@ <= target@,
        interval.period@ > 0 && now@ < crate::clock::INSTANT_MAX_NANOS ==> now@ < target@,
{
    let base = interval.base(now@);
    let period = interval.period@;
    if base <= now@ && period > 0 {
        boundary_is_the_first_after_now(base, period, now@);
    }
}

/// A tick of an interval that is not overdue comes exactly at its deadline: the one that is
/// planned, or one period ahead.
pub proof fn ticks_come_at_their_deadline(
    interval: Interval,
    now: Instant,
    tick: Tick,
)
    requires
        call_ensures(Interval::tick_at, (&interval, now), tick),
    ensures
        interval.next_deadline matches Some(planned) ==> now@ < planned@ ==> (tick matches
            Tick::SleepUntil { target } && target == planned),
        interval.next_deadline is None && interval.period@ > 0 && now@ + interval.period@
            <= 9_223_372_036_854_775_807_999_999_999 ==> (tick matches Tick::SleepUntil {
            target,
        } && target@ == now@ + interval.period@),
        interval.period@ == 0 && (interval.next_deadline matches Some(planned) ==> planned@ <= now@)
            && interval.missed_tick_behavior is Skip ==> (tick matches Tick::SleepUntil { target }
            && target@ == now@),
        interval.next_deadline matches Some(planned) ==> planned@ <= now@ && interval.period@ == 0
            && interval.missed_tick_behavior is CatchUp ==> tick is YieldOnce,
{
    if let Tick::SleepUntil { target } = tick {
        if let Some(planned) = interval.next_deadline {
            if now@ < planned@ {
                crate::clock::instants_are_their_views(target, planned);
            }
        }
    }
}

/// An overdue interval keeps its cadence. Skipping, its next tick is the first boundary after
/// now: later than now by at most one period, and a whole number of periods after the one that
/// was planned.
pub proof fn skipping_keeps_the_cadence(
    interval: Interval,
    now: Instant,
    planned: Instant,
    tick: Tick,
)
    requires
        call_ensures(Interval::tick_at, (&interval, now), tick),
        interval.missed_tick_behavior is Skip,
        interval.next_deadline == Some(planned),
        planned@ <= now@,
        interval.period@ > 0,
        now@ + interval.period@ <= 9_223_372_036_854_775_807_999_999_999,
    ensures
        tick matches Tick::SleepUntil { target } && now@ < target@ <= now@ + interval.period@
            && (target@
            - planned@) % interval.period@ == 0,
{
    boundary_is_the_first_after_now(planned@, interval.period@, now@);
}

/// Catching up counts every boundary from the one that was planned up to now, once: the last
/// that is counted is not after now, and the next, which is planned then, is.
pub proof fn catching_up_counts_every_boundary(
    interval: Interval,
    now: Instant,
    planned: Instant,
    tick: Tick,
)
    requires
        call_ensures(Interval::tick_at, (&interval, now), tick),
        interval.missed_tick_behavior is CatchUp,
        interval.next_deadline == Some(planned),
        planned@ <= now@,
        interval.period@ > 0,
        now@ + interval.period@ <= 9_223_372_036_854_775_807_999_999_999,
    ensures
        tick matches Tick::CatchUp { missed, next } && missed >= 1 && now@ < next@ <= now@
            + interval.period@ && (next@ - planned@) % interval.period@ == 0 && (missed < u64::MAX
            ==> planned@ + (missed - 1) * interval.period@ <= now@ && next@ == planned@ + missed
            * interval.period@) && (missed == u64::MAX
                ==> planned@ + (u64::MAX - 1) * interval.period@
            <= now@),
{
    let period = interval.period@;
    let elapsed = now@ - planned@;
    boundary_is_the_first_after_now(planned@, period, now@);
    lemma_boundary(planned@, period, now@);
    vstd::arithmetic::div_mod::lemma_div_pos_is_pos(elapsed, period);
    vstd::arithmetic::div_mod::lemma_fundamental_div_mod(elapsed, period);
    assert(period * (elapsed / period) == (elapsed / period) * period) by (nonlinear_arith);
    if elapsed / period >= u64::MAX - 1 {
        assert((u64::MAX - 1) * period <= (elapsed / period) * period) by (nonlinear_arith)
            requires
                elapsed / period >= u64::MAX - 1,
                period > 0,
        ;
    }
}

/// A tick that is over counts itself, or all that were missed, and plans the next: one period
/// after its target, at once for a period of nothing, or where catching up said.
pub proof fn completed_ticks_plan_the_next(
    before: Interval,
    after: Interval,
    tick: Tick,
    now: Instant,
    count: u64,
)
    requires
        exists|interval: &mut Interval|
            *interval == before && *final(interval) == after && #[trigger] call_ensures(
                Interval::complete_tick,
                (interval, tick, now),
                count,
            ),
    ensures
        after.period == before.period && after.missed_tick_behavior == before.missed_tick_behavior,
        tick matches Tick::SleepUntil { target } ==> count == 1
            && (after.next_deadline matches Some(next)
            && (target@ + before.period@ <= 9_223_372_036_854_775_807_999_999_999 ==> next@
                == target@ + before.period@) && (target@
            + before.period@ > 9_223_372_036_854_775_807_999_999_999 ==> next@
                == 9_223_372_036_854_775_807_999_999_999)),
        tick is YieldOnce ==> count == 1 && (after.next_deadline matches Some(next) && next@
            == now@),
        tick matches Tick::CatchUp { missed, next } ==> count == missed
            && (after.next_deadline matches
            Some(own) && own@ == next@),
{
}

/// An interval is made, moved and told how to handle what it misses without any other
/// change; a remainder is what whole multiples leave.
pub proof fn intervals_change_as_told(
    period: Duration,
    made: Interval,
    before: Interval,
    told: Interval,
    restarted: Interval,
    behavior: MissedTickBehavior,
    span: Duration,
    rest: Duration,
)
    requires
        call_ensures(Interval::new, (period,), made),
        exists|interval: &mut Interval|
            *interval == before && *final(interval) == told && #[trigger] call_ensures(
                Interval::set_missed_tick_behavior,
                (interval, behavior),
                (),
            ),
        exists|interval: &mut Interval|
            *interval == before && *final(interval) == restarted && #[trigger] call_ensures(
                Interval::reset,
                (interval,),
                (),
            ),
        period@ > 0,
        span.wf(),
        call_ensures(duration_remainder, (span, period), rest),
    ensures
        made.period == period && made.next_deadline is None && made.missed_tick_behavior is Skip,
        told.period == before.period && told.next_deadline == before.next_deadline
            && told.missed_tick_behavior == behavior,
        restarted.period == before.period && restarted.next_deadline is None
            && restarted.missed_tick_behavior == before.missed_tick_behavior,
        0 <= rest@ < period@,
        (span@ - rest@) % period@ == 0,
{
    vstd::arithmetic::div_mod::lemma_mod_bound(span@, period@);
    vstd::arithmetic::div_mod::lemma_fundamental_div_mod(span@, period@);
    vstd::arithmetic::div_mod::lemma_mod_multiples_basic(span@ / period@, period@);
    assert(period@ * (span@ / period@) == (span@ / period@) * period@) by (nonlinear_arith);
}

/// At the end of the clock an interval ticks at its last point: no target lies beyond it, and one that
/// lies before it keeps the cadence.
pub proof fn ticks_stop_at_the_end_of_the_clock(
    interval: Interval,
    now: Instant,
    tick: Tick,
)
    requires
        call_ensures(Interval::tick_at, (&interval, now), tick),
        interval.period@ > 0,
        now@ < 9_223_372_036_854_775_807_999_999_999,
    ensures
        interval.next_deadline is None
            && now@ + interval.period@ > 9_223_372_036_854_775_807_999_999_999
                ==> (tick matches Tick::SleepUntil {
            target,
        } && target@ == 9_223_372_036_854_775_807_999_999_999),
        interval.next_deadline matches Some(planned) ==> planned@ <= now@ ==> match tick {
            Tick::SleepUntil { target } => interval.missed_tick_behavior is Skip
                && now@ < target@ && (
            target@ < 9_223_372_036_854_775_807_999_999_999 ==> target@
                <= now@ + interval.period@ && (target@ - planned@)
                % interval.period@ == 0) && (target@ == 9_223_372_036_854_775_807_999_999_999
                    ==> now@ + interval.period@ >= 9_223_372_036_854_775_807_999_999_999),
            Tick::CatchUp { missed, next } => interval.missed_tick_behavior is CatchUp
                && missed >= 1
                && now@ < next@ && (next@ < 9_223_372_036_854_775_807_999_999_999 ==> next@
                    <= now@ + interval.period@ && (next@
                - planned@) % interval.period@ == 0) && (next@
                    == 9_223_372_036_854_775_807_999_999_999 ==> now@ + interval.period@
                >= 9_223_372_036_854_775_807_999_999_999) && next@
                    <= 9_223_372_036_854_775_807_999_999_999,
            Tick::YieldOnce => false,
        },
{
    if let Some(planned) = interval.next_deadline {
        if planned@ <= now@ {
            boundary_is_the_first_after_now(planned@, interval.period@, now@);
            vstd::arithmetic::div_mod::lemma_div_pos_is_pos(now@ - planned@, interval.period@);
        }
    }
}

/// An interval without a period yields once at every tick.
pub proof fn ticks_without_a_period_yield(
    interval: Interval,
    now: Instant,
    tick: Tick,
)
    requires
        call_ensures(Interval::tick_at, (&interval, now), tick),
        interval.period@ == 0,
        interval.next_deadline matches Some(planned) ==> planned@ <= now@,
        now@ <= 9_223_372_036_854_775_807_999_999_999,
    ensures
        interval.missed_tick_behavior is Skip ==> (tick matches Tick::SleepUntil { target }
            && target@ == now@),
        interval.missed_tick_behavior is CatchUp ==> tick is YieldOnce,
{
}

} // verus!
