//! Spans and points of the monotonic clock, counted in nanoseconds.

use vstd::prelude::*;

verus! {

/// Nanoseconds in one second.
pub const NANOS_PER_SEC: u128 = 1_000_000_000;

/// The longest span: `u64::MAX` seconds and 999 999 999 nanoseconds.
pub const DURATION_MAX_NANOS: u128 = 18_446_744_073_709_551_615_999_999_999;

/// The last point of the clock: `i64::MAX` seconds and 999 999 999 nanoseconds.
pub const INSTANT_MAX_NANOS: i128 = 9_223_372_036_854_775_807_999_999_999;

/// The first point of the clock: `i64::MIN` seconds.
pub const INSTANT_MIN_NANOS: i128 = -9_223_372_036_854_775_808_000_000_000;

/// A span of time. Its view is its length in nanoseconds.
#[derive(Debug, Clone, Copy, PartialEq, Eq, Structural)]
pub struct Duration {
    nanos: u128,
}

/// A point of the monotonic clock. Its view is its distance in nanoseconds from
/// the clock's origin; the seconds of that distance fit an `i64`.
#[derive(Debug, Clone, Copy, PartialEq, Eq, Structural)]
pub struct Instant {
    nanos: i128,
}

impl View for Duration {
    type V = int;

    closed spec fn view(&self) -> int {
        self.nanos as int
    }
}

impl View for Instant {
    type V = int;

    closed spec fn view(&self) -> int {
        self.nanos as int
    }
}

impl Duration {
    /// The span is one that `u64` seconds and a fraction can express.
    #[verifier::type_invariant]
    pub open spec fn wf(self) -> bool {
        0 <= self@ <= DURATION_MAX_NANOS
    }

    /// The span of `secs` seconds and `nanos` nanoseconds.
    pub fn new(secs: u64, nanos: u32) -> (r: Self)
        requires
            secs * NANOS_PER_SEC + nanos <= DURATION_MAX_NANOS,
        ensures
            r@ == secs * NANOS_PER_SEC + nanos,
    {
        Duration { nanos: secs as u128 * NANOS_PER_SEC + nanos as u128 }
    }

    /// The span of no time.
    pub fn zero() -> (r: Self)
        ensures
            r@ == 0,
    {
        Duration { nanos: 0 }
    }

    /// The longest span.
    pub fn max() -> (r: Self)
        ensures
            r@ == DURATION_MAX_NANOS,
    {
        Duration { nanos: DURATION_MAX_NANOS }
    }

    /// The span of `secs` whole seconds.
    pub fn from_secs(secs: u64) -> (r: Self)
        ensures
            r@ == secs * NANOS_PER_SEC,
    {
        Duration { nanos: secs as u128 * NANOS_PER_SEC }
    }

    /// The span of `millis` milliseconds.
    pub fn from_millis(millis: u64) -> (r: Self)
        ensures
            r@ == millis * 1_000_000,
    {
        Duration { nanos: millis as u128 * 1_000_000 }
    }

    /// The span of `micros` microseconds.
    pub fn from_micros(micros: u64) -> (r: Self)
        ensures
            r@ == micros * 1_000,
    {
        Duration { nanos: micros as u128 * 1_000 }
    }

    /// The span of `nanos` nanoseconds.
    pub fn from_nanos(nanos: u64) -> (r: Self)
        ensures
            r@ == nanos,
    {
        Duration { nanos: nanos as u128 }
    }

    /// The whole length in nanoseconds.
    pub fn as_nanos(self) -> (r: u128)
        ensures
            r == self@,
    {
        self.nanos
    }

    /// The whole seconds of the span.
    pub fn as_secs(self) -> (r: u64)
        ensures
            r == self@ / 1_000_000_000,
    {
        proof {
            use_type_invariant(&self);
        }
        (self.nanos / NANOS_PER_SEC) as u64
    }

    /// The nanoseconds of the span beyond its whole seconds.
    pub fn subsec_nanos(self) -> (r: u32)
        ensures
            r == self@ % 1_000_000_000,
    {
        (self.nanos % NANOS_PER_SEC) as u32
    }

    /// Whether the span is of no time.
    pub fn is_zero(self) -> (r: bool)
        ensures
            r == (self@ == 0),
    {
        self.nanos == 0
    }

    /// The span without `other`, which must not be the longer of the two.
    pub fn minus(self, other: Duration) -> (r: Self)
        requires
            other@ <= self@,
        ensures
            r@ == self@ - other@,
    {
        proof {
            use_type_invariant(&self);
        }
        Duration { nanos: self.nanos - other.nanos }
    }
}

impl Instant {
    /// The point is one that the clock can express.
    #[verifier::type_invariant]
    pub open spec fn wf(self) -> bool {
        INSTANT_MIN_NANOS <= self@ <= INSTANT_MAX_NANOS
    }

    /// The point `secs` seconds and `nanos` nanoseconds after the origin.
    pub fn from_parts(secs: i64, nanos: u32) -> (r: Self)
        requires
            nanos < 1_000_000_000,
        ensures
            r@ == secs * 1_000_000_000 + nanos,
    {
        Instant { nanos: secs as i128 * 1_000_000_000 + nanos as i128 }
    }

    /// The point `duration` after this one, where the clock can express it.
    pub fn checked_add(self, duration: Duration) -> (r: Option<Instant>)
        ensures
            r is Some <==> self@ + duration@ <= INSTANT_MAX_NANOS,
            r matches Some(t) ==> t@ == self@ + duration@,
    {
        proof {
            use_type_invariant(&self);
            use_type_invariant(&duration);
        }
        let sum: i128 = self.nanos + duration.nanos as i128;
        if sum <= INSTANT_MAX_NANOS {
            Some(Instant { nanos: sum })
        } else {
            None
        }
    }

    /// The time from `earlier` to this point, or none where `earlier` is later.
    pub fn saturating_duration_since(self, earlier: Instant) -> (r: Duration)
        ensures
            r@ == if earlier@ <= self@ { self@ - earlier@ } else { 0 },
    {
        proof {
            use_type_invariant(&self);
            use_type_invariant(&earlier);
        }
        if earlier.nanos <= self.nanos {
            Duration { nanos: (self.nanos - earlier.nanos) as u128 }
        } else {
            Duration { nanos: 0 }
        }
    }

    /// Whether this point comes strictly before `other`.
    pub fn is_before(self, other: Instant) -> (r: bool)
        ensures
            r == (self@ < other@),
    {
        self.nanos < other.nanos
    }

    /// Whether this point has been reached at `now`.
    pub fn is_due(self, now: Instant) -> (r: bool)
        ensures
            r == (self@ <= now@),
    {
        self.nanos <= now.nanos
    }
}

/// Points with one view are one point.
pub proof fn instants_are_their_views(a: Instant, b: Instant)
    ensures
        a@ == b@ <==> a == b,
{
}

/// Spans with one view are one span.
pub proof fn durations_are_their_views(a: Duration, b: Duration)
    ensures
        a@ == b@ <==> a == b,
{
}

/// A span is as long as its parts, and tells them.
pub proof fn spans_are_as_long_as_their_parts(
    secs: u64,
    nanos: u32,
    span: Duration,
    whole: u64,
    rest: u32,
    all: u128,
    none: bool,
)
    requires
        nanos < 1_000_000_000,
        call_ensures(Duration::new, (secs, nanos), span),
        call_ensures(Duration::as_secs, (span,), whole),
        call_ensures(Duration::subsec_nanos, (span,), rest),
        call_ensures(Duration::as_nanos, (span,), all),
        call_ensures(Duration::is_zero, (span,), none),
    ensures
        whole == secs && rest == nanos,
        all == secs * 1_000_000_000 + nanos && span@ == all,
        none <==> secs == 0 && nanos == 0,
{
    assert((secs * 1_000_000_000 + nanos) / 1_000_000_000 == secs && (secs * 1_000_000_000 + nanos)
        % 1_000_000_000 == nanos) by (nonlinear_arith)
        requires
            nanos < 1_000_000_000,
    ;
}

/// Spans of whole units are as long as so many of them.
pub proof fn units_are_as_long_as_they_are(
    n: u64,
    secs: Duration,
    millis: Duration,
    micros: Duration,
    nanos: Duration,
    zero: Duration,
    longest: Duration,
    any: Duration,
)
    requires
        call_ensures(Duration::from_secs, (n,), secs),
        call_ensures(Duration::from_millis, (n,), millis),
        call_ensures(Duration::from_micros, (n,), micros),
        call_ensures(Duration::from_nanos, (n,), nanos),
        call_ensures(Duration::zero, (), zero),
        call_ensures(Duration::max, (), longest),
        any.wf(),
    ensures
        secs@ == n * 1_000_000_000 && millis@ == n * 1_000_000 && micros@ == n * 1_000
            && nanos@ == n,
        zero@ == 0,
        zero@ <= any@ <= longest@,
        longest@ == 18_446_744_073_709_551_615_999_999_999,
{
}

/// What is added to a point lies that much later, wherever the clock can express it; the
/// time between two points is their distance, and none where they come the other way
/// round.
pub proof fn points_lie_as_far_apart_as_was_added(
    point: Instant,
    span: Duration,
    later: Option<Instant>,
    other: Instant,
    between: Duration,
    before: bool,
    due: bool,
)
    requires
        call_ensures(Instant::checked_add, (point, span), later),
        call_ensures(Instant::saturating_duration_since, (other, point), between),
        call_ensures(Instant::is_before, (point, other), before),
        call_ensures(Instant::is_due, (point, other), due),
    ensures
        later is Some <==> point@ + span@ <= 9_223_372_036_854_775_807_999_999_999,
        later matches Some(end) ==> end@ - point@ == span@,
        point@ <= other@ ==> between@ == other@ - point@,
        other@ < point@ ==> between@ == 0,
        before <==> point@ < other@,
        due <==> !(other@ < point@),
{
}

/// Adding and measuring undo each other.
pub proof fn measuring_undoes_adding(
    point: Instant,
    span: Duration,
    end: Instant,
    measured: Duration,
)
    requires
        span.wf(),
        call_ensures(Instant::checked_add, (point, span), Some(end)),
        call_ensures(Instant::saturating_duration_since, (end, point), measured),
    ensures
        measured == span,
{
    durations_are_their_views(measured, span);
}

/// A point is as far from the origin as its parts say, and a shorter span leaves what it is
/// shorter by.
pub proof fn points_are_their_parts(
    secs: i64,
    nanos: u32,
    point: Instant,
    a: Duration,
    b: Duration,
    rest: Duration,
)
    requires
        call_ensures(Instant::from_parts, (secs, nanos), point),
        call_ensures(Duration::minus, (a, b), rest),
    ensures
        point@ == secs * 1_000_000_000 + nanos,
        rest@ + b@ == a@,
{
}

} // verus!
