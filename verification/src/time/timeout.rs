//! Timeout that races an inner future against a deadline.

use vstd::prelude::*;

use std::task::Waker;

use crate::clock::{Duration, Instant};
use crate::poll::Poll;
use crate::time::sleep::{
    polled_registered, polled_unregistered, released_by, Sleep, SleepPoll, ZeroBehavior,
};
use crate::time::{deadline_after, deadline_after_spec};
use crate::timer::{Timer, TimerHandle};
use crate::outside::woken_task;

verus! {

/// Error returned when a timeout expires.
#[derive(Debug, Clone, Copy, PartialEq, Eq, Structural)]
pub struct TimeoutError;

impl TimeoutError {
    pub fn message(&self) -> (r: String)
        ensures
            r@ == "operation timed out"@,
    {
        "operation timed out".to_owned()
    }
}

/// Timeout that races the provided future against a deadline.
///
/// The inner future is polled first, so a ready result wins even at an expired
/// deadline. If the deadline passes while the future is pending, the future is
/// dropped, and every poll from then on reports the error.
pub struct Timeout<F> {
    future: Option<F>,
    sleep: Option<Sleep>,
    timed_out: bool,
}

/// What polling a timeout leads to, and what is left to the caller: waiters to
/// be woken, and waiters to be dropped once no borrow of the timers is held.
pub struct TimeoutPoll<T> {
    pub state: Poll<Result<T, TimeoutError>>,
    pub wake: Option<Waker>,
    pub wake_task: bool,
    pub released: Option<Waker>,
    pub unused: Option<Waker>,
    /// Whether a clone of the task's waiter is needed first: nothing was done, and
    /// the timeout is to be polled again with one, the inner future not.
    pub needs_waker: bool,
}

impl<F> Timeout<F> {
    /// The future that is raced, while the race goes on.
    pub closed spec fn racing(self) -> Option<F> {
        self.future
    }

    /// The sleep that the future is raced against, while the race goes on.
    pub closed spec fn clock(self) -> Option<Sleep> {
        self.sleep
    }

    /// Whether the deadline won.
    pub closed spec fn expired(self) -> bool {
        self.timed_out
    }

    /// Future and sleep are held for as long as the race goes on, and an expired
    /// timeout holds neither.
    pub open spec fn wf(self) -> bool {
        &&& self.racing() is Some <==> self.clock() is Some
        &&& self.expired() ==> self.racing() is None
        &&& self.clock() matches Some(sleep) ==> sleep.wf() && !sleep.done()
    }

    /// A timeout of `duration` from `now`.
    pub fn new(future: F, now: Instant, duration: Duration) -> (r: Self)
        ensures
            r.wf(),
            r.racing() == Some(future),
            r.clock() matches Some(sleep) && sleep.fresh(sleep.at(), ZeroBehavior::Immediate)
                && sleep.at()@ == deadline_after_spec(now@, duration@),
            !r.expired(),
    {
        Timeout::new_at(future, deadline_after(now, duration))
    }

    /// A timeout with an absolute deadline, without rebasing it on now.
    pub fn new_at(future: F, deadline: Instant) -> (r: Self)
        ensures
            r.wf(),
            r.racing() == Some(future),
            r.clock() matches Some(sleep) && sleep.fresh(deadline, ZeroBehavior::Immediate),
            !r.expired(),
    {
        Timeout {
            future: Some(future),
            sleep: Some(Sleep::sleep_until(deadline)),
            timed_out: false,
        }
    }

    /// The answer of a timeout that has expired. Until then the inner future is
    /// polled before anything else.
    pub fn expiry(&self) -> (r: Option<TimeoutError>)
        ensures
            r is Some <==> self.expired(),
    {
        if self.timed_out {
            Some(TimeoutError)
        } else {
            None
        }
    }

    /// The inner future, to be polled while the race goes on.
    pub fn future_mut(&mut self) -> (r: Option<&mut F>)
        ensures
            r is Some <==> old(self).racing() is Some,
            r matches Some(future) ==> *future == old(self).racing()->0 && final(self).racing()
                == Some(*final(future)),
            r is None ==> final(self).racing() is None,
            final(self).clock() == old(self).clock(),
            final(self).expired() == old(self).expired(),
    {
        self.future.as_mut()
    }

    /// Whether the sleep is still held.
    pub fn has_sleep(&self) -> (r: bool)
        ensures
            r == self.clock() is Some,
    {
        self.sleep.is_some()
    }

    /// Go on once the inner future was polled, with a clone of the task's waiter
    /// where one was made: a result ends the race, and so
    /// does the deadline where there is none. Either way the future and the
    /// registration with the timers are given up before the answer is returned.
    pub fn poll<T>(
        &mut self,
        inner: Poll<T>,
        timer: &mut Timer,
        now: Instant,
        later: Instant,
        waker: &Waker,
        replacement: Option<Waker>,
    ) -> (r: TimeoutPoll<T>)
        requires
            old(self).wf(),
            old(self).racing() is Some,
            old(timer).wf(),
        ensures
            final(self).wf(),
            final(timer).wf(),
            inner matches Poll::Ready(output) ==> {
                &&& r.state == Poll::Ready(Ok::<T, TimeoutError>(output))
                &&& r.wake is None
                &&& !r.wake_task
                &&& r.unused == replacement
                &&& !r.needs_waker
                &&& released_by(
                    *old(timer),
                    *final(timer),
                    old(self).clock()->0.held(),
                    r.released,
                )
                &&& final(self).racing() is None
                &&& !final(self).expired()
            },
            inner is Pending ==> {
                &&& raced_on(
                    old(self).clock()->0,
                    final(self).clock(),
                    *old(timer),
                    *final(timer),
                    now@,
                    later@,
                    *waker,
                    replacement,
                    sleep_part(r),
                )
                &&& r.state is Pending || r.state
                    == Poll::Ready(Err::<T, TimeoutError>(TimeoutError))
                &&& final(self).expired() == !(r.state is Pending)
                &&& final(self).racing() == if r.state is Pending {
                    old(self).racing()
                } else {
                    None
                }
            },
    {
        let mut sleep = match self.sleep.take() {
            Some(sleep) => sleep,
            None => Sleep::sleep_until(now),
        };
        match inner {
            Poll::Ready(output) => {
                let released = sleep.release(timer);
                self.future = None;
                TimeoutPoll {
                    state: Poll::Ready(Ok(output)),
                    wake: None,
                    wake_task: false,
                    released,
                    unused: replacement,
                    needs_waker: false,
                }
            },
            Poll::Pending => {
                let ghost before = sleep;
                let polled = sleep.poll(timer, now, later, waker, replacement);
                assert(raced(
                    before,
                    sleep,
                    *old(timer),
                    *timer,
                    now@,
                    later@,
                    *waker,
                    replacement,
                    polled,
                ));
                let state = match polled.state {
                    Poll::Ready(_) => {
                        self.timed_out = true;
                        // Cancel even if the caller retains the completed timeout.
                        self.future = None;
                        Poll::Ready(Err(TimeoutError))
                    },
                    Poll::Pending => {
                        self.sleep = Some(sleep);
                        Poll::Pending
                    },
                };
                let r = TimeoutPoll {
                    state,
                    wake: polled.wake,
                    wake_task: polled.wake_task,
                    released: polled.released,
                    unused: polled.unused,
                    needs_waker: polled.needs_waker,
                };
                assert(sleep_part(r) == polled);
                r
            },
        }
    }

    /// Give up the future and the registration of a timeout that is dropped.
    pub fn release(&mut self, timer: &mut Timer) -> (released: Option<Waker>)
        requires
            old(self).wf(),
            old(timer).wf(),
        ensures
            final(self).wf(),
            final(timer).wf(),
            final(self).racing() is None,
            final(self).expired() == old(self).expired(),
            released_by(
                *old(timer),
                *final(timer),
                match old(self).clock() {
                    Some(sleep) => sleep.held(),
                    None => None,
                },
                released,
            ),
    {
        self.future = None;
        match self.sleep.take() {
            Some(sleep) => {
                let mut sleep = sleep;
                sleep.release(timer)
            },
            None => None,
        }
    }
}

/// What a poll of a timeout with a pending future says of its sleep.
pub open spec fn sleep_part<T>(r: TimeoutPoll<T>) -> SleepPoll {
    SleepPoll {
        state: if r.state is Pending {
            Poll::Pending
        } else {
            Poll::Ready(())
        },
        wake: r.wake,
        wake_task: r.wake_task,
        released: r.released,
        unused: r.unused,
        needs_waker: r.needs_waker,
    }
}

/// A poll of a sleep that has not completed.
pub open spec fn raced(
    before: Sleep,
    after: Sleep,
    timer: Timer,
    timer2: Timer,
    now: int,
    later: int,
    waker: Waker,
    replacement: Option<Waker>,
    r: SleepPoll,
) -> bool {
    &&& after.at() == before.at()
    &&& after.behavior() == before.behavior()
    &&& after.done() == (r.state == Poll::Ready(()))
    &&& if before.held() is None {
        polled_unregistered(before, after, timer, timer2, now, replacement, r)
    } else {
        polled_registered(before, after, timer, timer2, now, later, waker, replacement, r)
    }
}

/// A poll of a sleep that has not completed, which is kept for as long as it is
/// pending.
pub open spec fn raced_on(
    before: Sleep,
    kept: Option<Sleep>,
    timer: Timer,
    timer2: Timer,
    now: int,
    later: int,
    waker: Waker,
    replacement: Option<Waker>,
    r: SleepPoll,
) -> bool {
    exists|after: Sleep| #[trigger]
        raced(before, after, timer, timer2, now, later, waker, replacement, r) && kept == if r.state
            is Pending {
            Some(after)
        } else {
            None
        }
}

/// While the future is pending, a race is lost exactly when the deadline has
/// passed: at `now`, or at `later` where the registration had to be replaced.
pub proof fn expires_exactly_past_the_deadline(
    before: Sleep,
    after: Sleep,
    timer: Timer,
    timer2: Timer,
    now: int,
    later: int,
    waker: Waker,
    replacement: Option<Waker>,
    r: SleepPoll,
)
    requires
        raced(before, after, timer, timer2, now, later, waker, replacement, r),
        !r.needs_waker,
        before.behavior() == ZeroBehavior::Immediate,
    ensures
        r.state == Poll::Ready(()) <==> {
            ||| before.at()@ <= now
            ||| before.at()@ <= later && (before.held() matches Some(h)
                && !timer.live().contains_key(h))
        },
{
}

/// A race is won by a result, whatever the time: it comes out, and future and registration are
/// given up.
pub proof fn results_win_the_race<F, T>(
    before: Timeout<F>,
    after: Timeout<F>,
    timer: Timer,
    timer2: Timer,
    now: Instant,
    later: Instant,
    waker: Waker,
    clone: Waker,
    output: T,
    r: TimeoutPoll<T>,
    h: TimerHandle,
)
    requires
        exists|race: &mut Timeout<F>, timers: &mut Timer|
            *race == before && *final(race) == after && *timers == timer && *final(timers) == timer2
                && #[trigger] call_ensures(
                Timeout::<F>::poll::<T>,
                (race, Poll::Ready(output), timers, now, later, &waker, Some(clone)),
                r,
            ),
        before.wf() && before.racing() is Some,
    ensures
        r.state == Poll::Ready(Ok::<T, TimeoutError>(output)),
        after.racing() is None && !after.expired() && !r.needs_waker,
        before.clock() matches Some(sleep) ==> sleep.held() == Some(h)
            ==> !timer2.live().contains_key(h)
            && (timer.live().contains_key(h) ==> r.released == Some(timer.live()[h].waker)),
{
}

/// A race is lost exactly when its deadline has passed while the future is pending: then the
/// future is given up, and the error comes out. Before, future and sleep go on, and the task
/// will be woken at the deadline.
pub proof fn races_are_lost_exactly_past_the_deadline<F, T>(
    before: Timeout<F>,
    after: Timeout<F>,
    sleep: Sleep,
    timer: Timer,
    timer2: Timer,
    now: Instant,
    later: Instant,
    waker: Waker,
    clone: Waker,
    r: TimeoutPoll<T>,
)
    requires
        exists|race: &mut Timeout<F>, timers: &mut Timer|
            *race == before && *final(race) == after && *timers == timer && *final(timers) == timer2
                && #[trigger] call_ensures(
                Timeout::<F>::poll::<T>,
                (race, Poll::<T>::Pending, timers, now, later, &waker, Some(clone)),
                r,
            ),
        before.clock() == Some(sleep) && sleep.behavior() is Immediate,
        now@ <= later@,
        woken_task(clone) == woken_task(waker),
        sleep.held() matches Some(h) ==> timer.live().contains_key(h) ==> timer.live()[h].deadline
            == sleep.at(),
    ensures
        sleep.at()@ <= now@ ==> r.state == Poll::Ready(Err::<T, TimeoutError>(TimeoutError)),
        later@ < sleep.at()@ ==> r.state is Pending,
        now@ < sleep.at()@ && (sleep.held() matches Some(h) ==> timer.live().contains_key(h))
            ==> r.state
            is Pending,
        r.state is Pending || r.state == Poll::Ready(Err::<T, TimeoutError>(TimeoutError)),
        r.state is Pending ==> after.racing() == before.racing() && !after.expired()
            && (after.clock() matches
            Some(own) && own.at() == sleep.at() && (own.held() matches Some(h)
            && timer2.live().contains_key(h) && timer2.live()[h].deadline == sleep.at()
                && woken_task(
            timer2.live()[h].waker,
        ) == woken_task(waker))),
        !(r.state is Pending) ==> after.expired() && after.racing() is None
            && after.clock() is None,
        !r.needs_waker,
{
}

/// A timeout that was dropped holds neither its future nor a registration; one that expired
/// says so from then on, and no other does.
pub proof fn dropped_races_hold_nothing<F>(
    before: Timeout<F>,
    after: Timeout<F>,
    timer: Timer,
    timer2: Timer,
    released: Option<Waker>,
    h: TimerHandle,
    error: Option<TimeoutError>,
    sleeping: bool,
)
    requires
        exists|race: &mut Timeout<F>, timers: &mut Timer|
            *race == before && *final(race) == after && *timers == timer && *final(timers) == timer2
                && #[trigger] call_ensures(Timeout::<F>::release, (race, timers), released),
        call_ensures(Timeout::<F>::expiry, (&before,), error),
        call_ensures(Timeout::<F>::has_sleep, (&before,), sleeping),
    ensures
        after.racing() is None,
        before.clock() matches Some(sleep) ==> sleep.held() == Some(h)
            ==> !timer2.live().contains_key(h)
            && (timer.live().contains_key(h) ==> released == Some(timer.live()[h].waker)),
        before.clock() is None ==> timer2 == timer && released is None,
        error is Some <==> before.expired(),
        sleeping <==> before.clock() is Some,
{
}

/// A timeout is made for its future and exactly as far ahead as was asked for.
pub proof fn races_last_as_long_as_asked<F>(
    future: F,
    point: Instant,
    span: Duration,
    relative: Timeout<F>,
    absolute: Timeout<F>,
    error: TimeoutError,
    text: String,
)
    requires
        call_ensures(Timeout::<F>::new, (future, point, span), relative),
        call_ensures(Timeout::<F>::new_at, (future, point), absolute),
        call_ensures(TimeoutError::message, (&error,), text),
    ensures
        relative.racing() == Some(future) && absolute.racing() == Some(future),
        !relative.expired() && !absolute.expired(),
        relative.clock() matches Some(sleep) && sleep.held() is None
            && sleep.behavior() is Immediate
            && sleep.at()@ == if point@ + span@ <= 9_223_372_036_854_775_807_999_999_999 {
            point@ + span@
        } else {
            9_223_372_036_854_775_807_999_999_999
        },
        absolute.clock() matches Some(sleep) && sleep.held() is None
            && sleep.behavior() is Immediate
            && sleep.at() == point,
        text@ == "operation timed out"@,
{
}

/// The inner future is there to be polled while the race goes on, and only then.
pub proof fn racing_futures_can_be_polled<F>(
    before: Timeout<F>,
    after: Timeout<F>,
    r: Option<&mut F>,
)
    requires
        exists|it: &mut Timeout<F>|
            *it == before && *final(it) == after && #[trigger] call_ensures(
                Timeout::<F>::future_mut,
                (it,),
                r,
            ),
    ensures
        r is Some <==> before.racing() is Some,
        r matches Some(future) ==> before.racing() == Some(*future) && after.racing() == Some(
            *final(future),
        ),
        after.clock() == before.clock() && after.expired() == before.expired(),
{
}

} // verus!
