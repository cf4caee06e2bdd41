//! Sleep and zero-duration behavior configuration.

use vstd::prelude::*;

use std::task::Waker;

use crate::clock::{Duration, Instant};
use crate::outside::{same_task, woken_task};
use crate::poll::Poll;
use crate::time::{deadline_after, deadline_after_spec};
use crate::timer::{following_generation, Registration, Timer, TimerHandle, WakerUpdate};

verus! {

/// The shortest duration that a sleep waits for: 1 ms, in nanoseconds.
pub const SHORTEST_SLEEP_NANOS: u128 = 1_000_000;

/// Behavior of zero-duration sleeps (shorter than 1 ms), and of sleeps whose
/// deadline has passed when they are first polled.
#[derive(Debug, Clone, Copy, PartialEq, Eq, Structural)]
pub enum ZeroBehavior {
    /// Complete immediately (default).
    Immediate,
    /// Yield to the scheduler once, then complete on the following poll.
    Yield,
}

/// A sleep that completes at its deadline. It holds at most one registration
/// with the timers, under `handle`.
pub struct Sleep {
    handle: Option<TimerHandle>,
    fired: bool,
    yield_scheduled: bool,
    zero_behavior: ZeroBehavior,
    deadline: Instant,
}

/// The point at which a sleep of `duration` from `now` is over.
pub open spec fn sleep_end(now: int, duration: int) -> int {
    if duration < SHORTEST_SLEEP_NANOS {
        now
    } else {
        deadline_after_spec(now, duration)
    }
}

/// What polling a sleep leads to, and what is left to the caller: waiters to be
/// woken, and waiters to be dropped once no borrow of the timers is held.
pub struct SleepPoll {
    pub state: Poll<()>,
    /// The waiter that was not registered because the deadline had passed.
    pub wake: Option<Waker>,
    /// Whether the polling task is to be woken once more, to give way to others.
    pub wake_task: bool,
    /// The waiter whose registration ended.
    pub released: Option<Waker>,
    /// The clone that was not needed.
    pub unused: Option<Waker>,
    /// Whether a clone of the task's waiter is needed first: nothing was done, and
    /// the sleep is to be polled again with one.
    pub needs_waker: bool,
}

/// The poll asks for a clone of the task's waiter.
pub open spec fn asks_for_waker(poll: SleepPoll) -> bool {
    &&& poll.state == Poll::<()>::Pending
    &&& poll.wake is None
    &&& !poll.wake_task
    &&& poll.released is None
    &&& poll.unused is None
    &&& poll.needs_waker
}

/// The poll asks nothing of the caller, but to drop the clone that was not needed.
pub open spec fn quiet(poll: SleepPoll, ready: bool, unused: Option<Waker>) -> bool {
    &&& poll.state == if ready {
        Poll::Ready(())
    } else {
        Poll::Pending
    }
    &&& poll.wake is None
    &&& !poll.wake_task
    &&& poll.released is None
    &&& poll.unused == unused
    &&& !poll.needs_waker
}

/// The timers gained one registration, for `deadline` and `waker`.
pub open spec fn armed(
    before: Timer,
    after: Timer,
    handle: Option<TimerHandle>,
    deadline: Instant,
    waker: Waker,
) -> bool {
    &&& handle matches Some(h) && {
        &&& !before.live().contains_key(h)
        &&& after.live() == before.live().insert(h, Registration { deadline, waker })
        &&& h.generation() == after.generation()
    }
    &&& after.generation() == following_generation(before.generation())
}

impl Sleep {
    /// The point at which the sleep is over.
    pub closed spec fn at(self) -> Instant {
        self.deadline
    }

    /// The registration that the sleep holds.
    pub closed spec fn held(self) -> Option<TimerHandle> {
        self.handle
    }

    /// Whether the sleep has completed.
    pub closed spec fn done(self) -> bool {
        self.fired
    }

    /// Whether the one yield of an overdue sleep has been given.
    pub closed spec fn yielded(self) -> bool {
        self.yield_scheduled
    }

    pub closed spec fn behavior(self) -> ZeroBehavior {
        self.zero_behavior
    }

    /// A completed sleep holds no registration.
    pub open spec fn wf(self) -> bool {
        self.done() ==> self.held() is None
    }

    /// The sleep is as new, for `deadline`.
    pub open spec fn fresh(self, deadline: Instant, behavior: ZeroBehavior) -> bool {
        &&& self.at() == deadline
        &&& self.behavior() == behavior
        &&& self.held() is None
        &&& !self.done()
        &&& !self.yielded()
    }

    /// A sleep of `duration` from `now`. One shorter than 1 ms is over at once.
    /// Deadlines beyond the range of the clock saturate at its upper limit.
    pub fn new(now: Instant, duration: Duration) -> (r: Self)
        ensures
            r.wf(),
            r.fresh(r.at(), ZeroBehavior::Immediate),
            r.at()@ == sleep_end(now@, duration@),
    {
        Sleep::new_with_zero_behavior(now, duration, ZeroBehavior::Immediate)
    }

    /// A sleep with custom behavior for zero-duration waits.
    pub fn new_with_zero_behavior(
        now: Instant,
        duration: Duration,
        zero_behavior: ZeroBehavior,
    ) -> (r: Self)
        ensures
            r.wf(),
            r.fresh(r.at(), zero_behavior),
            r.at()@ == sleep_end(now@, duration@),
    {
        let deadline: Instant = if duration.as_nanos() < SHORTEST_SLEEP_NANOS {
            now
        } else {
            deadline_after(now, duration)
        };
        Sleep::sleep_until_with_zero_behavior(deadline, zero_behavior)
    }

    /// A sleep that completes at the specified absolute `deadline`.
    pub fn sleep_until(deadline: Instant) -> (r: Self)
        ensures
            r.wf(),
            r.fresh(deadline, ZeroBehavior::Immediate),
    {
        Sleep::sleep_until_with_zero_behavior(deadline, ZeroBehavior::Immediate)
    }

    pub fn sleep_until_with_zero_behavior(
        deadline: Instant,
        zero_behavior: ZeroBehavior,
    ) -> (r: Self)
        ensures
            r.wf(),
            r.fresh(deadline, zero_behavior),
    {
        Sleep { handle: None, fired: false, yield_scheduled: false, zero_behavior, deadline }
    }

    pub fn deadline(&self) -> (r: Instant)
        ensures
            r == self.at(),
    {
        self.deadline
    }

    pub fn zero_behavior(&self) -> (r: ZeroBehavior)
        ensures
            r == self.behavior(),
    {
        self.zero_behavior
    }

    pub fn handle(&self) -> (r: Option<TimerHandle>)
        ensures
            r == self.held(),
    {
        self.handle
    }

    /// Reset the sleep to a new absolute `deadline`.
    ///
    /// A registration for the old deadline is cancelled, and its waiter handed
    /// back. The next poll registers anew, so one value can serve a steady
    /// cadence or a timeout that is moved.
    pub fn reset(&mut self, timer: &mut Timer, deadline: Instant) -> (released: Option<Waker>)
        requires
            old(self).wf(),
            old(timer).wf(),
        ensures
            final(self).wf(),
            final(timer).wf(),
            final(self).fresh(deadline, old(self).behavior()),
            released_by(*old(timer), *final(timer), old(self).held(), released),
    {
        self.deadline = deadline;
        self.fired = false;
        self.yield_scheduled = false;
        match self.handle.take() {
            Some(handle) => timer.cancel(handle),
            None => None,
        }
    }

    /// Give up the registration of a sleep that is dropped, so that the timers
    /// do not hold on to its waiter.
    pub fn release(&mut self, timer: &mut Timer) -> (released: Option<Waker>)
        requires
            old(self).wf(),
            old(timer).wf(),
        ensures
            final(self).wf(),
            final(timer).wf(),
            final(self).held() is None,
            final(self).at() == old(self).at(),
            final(self).behavior() == old(self).behavior(),
            final(self).done() == old(self).done(),
            final(self).yielded() == old(self).yielded(),
            released_by(*old(timer), *final(timer), old(self).held(), released),
    {
        match self.handle.take() {
            Some(handle) => timer.cancel(handle),
            None => None,
        }
    }

    /// Poll the sleep at `now`, for the task that `waker` wakes. `later` is the clock
    /// at the moment when a registration that the timers no longer know is
    /// replaced. `replacement` is a clone of `waker`, to be made with no borrow of
    /// the timers held; where one is needed and missing, it is asked for.
    pub fn poll(
        &mut self,
        timer: &mut Timer,
        now: Instant,
        later: Instant,
        waker: &Waker,
        replacement: Option<Waker>,
    ) -> (r: SleepPoll)
        requires
            old(self).wf(),
            old(timer).wf(),
        ensures
            final(self).wf(),
            final(timer).wf(),
            final(self).at() == old(self).at(),
            final(self).behavior() == old(self).behavior(),
            final(self).done() == (r.state == Poll::Ready(())),
            old(self).done() ==> quiet(r, true, replacement) && *final(timer) == *old(timer)
                && *final(self) == *old(self),
            !old(self).done() && old(self).held() is None ==> polled_unregistered(
                *old(self),
                *final(self),
                *old(timer),
                *final(timer),
                now@,
                replacement,
                r,
            ),
            !old(self).done() && old(self).held() is Some ==> polled_registered(
                *old(self),
                *final(self),
                *old(timer),
                *final(timer),
                now@,
                later@,
                *waker,
                replacement,
                r,
            ),
    {
        if self.fired {
            return SleepPoll {
                state: Poll::Ready(()),
                wake: None,
                wake_task: false,
                released: None,
                unused: replacement,
                needs_waker: false,
            };
        }
        match self.handle {
            None => {
                let clone = match replacement {
                    Some(clone) => clone,
                    None => {
                        return SleepPoll::needing_waker();
                    },
                };
                match timer.submit(now, self.deadline, clone) {
                    Ok(handle) => {
                        self.handle = Some(handle);
                        SleepPoll::pending()
                    },
                    Err(due) => {
                        let yields: bool = match self.zero_behavior {
                            ZeroBehavior::Immediate => false,
                            ZeroBehavior::Yield => !self.yield_scheduled,
                        };
                        if yields {
                            self.yield_scheduled = true;
                        } else {
                            self.fired = true;
                        }
                        SleepPoll {
                            state: if yields {
                                Poll::Pending
                            } else {
                                Poll::Ready(())
                            },
                            wake: Some(due),
                            wake_task: yields,
                            released: None,
                            unused: None,
                            needs_waker: false,
                        }
                    },
                }
            },
            Some(handle) => {
                if self.deadline.is_due(now) {
                    self.fired = true;
                    self.handle = None;
                    let released = timer.cancel(handle);
                    return SleepPoll {
                        state: Poll::Ready(()),
                        wake: None,
                        wake_task: false,
                        released,
                        unused: replacement,
                        needs_waker: false,
                    };
                }
                let clone = match timer.update_waker(handle, waker, replacement) {
                    WakerUpdate::Kept { unused } => {
                        let polled = SleepPoll {
                            state: Poll::Pending,
                            wake: None,
                            wake_task: false,
                            released: None,
                            unused,
                            needs_waker: false,
                        };
                        assert(polled_live(
                            *old(self),
                            *self,
                            *old(timer),
                            *timer,
                            true,
                            replacement,
                            polled,
                        ));
                        return polled;
                    },
                    WakerUpdate::Replaced { replaced } => {
                        let polled = SleepPoll {
                            state: Poll::Pending,
                            wake: None,
                            wake_task: false,
                            released: Some(replaced),
                            unused: None,
                            needs_waker: false,
                        };
                        assert(polled_live(
                            *old(self),
                            *self,
                            *old(timer),
                            *timer,
                            false,
                            replacement,
                            polled,
                        ));
                        return polled;
                    },
                    WakerUpdate::NeedsWaker => {
                        let polled = SleepPoll::needing_waker();
                        assert(polled_live(
                            *old(self),
                            *self,
                            *old(timer),
                            *timer,
                            false,
                            replacement,
                            polled,
                        ));
                        return polled;
                    },
                    WakerUpdate::Stale { unused } => match unused {
                        Some(clone) => clone,
                        None => {
                            return SleepPoll::needing_waker();
                        },
                    },
                };
                self.handle = None;
                match timer.submit(later, self.deadline, clone) {
                    Ok(fresh) => {
                        self.handle = Some(fresh);
                        SleepPoll::pending()
                    },
                    Err(due) => {
                        self.fired = true;
                        SleepPoll {
                            state: Poll::Ready(()),
                            wake: Some(due),
                            wake_task: false,
                            released: None,
                            unused: None,
                            needs_waker: false,
                        }
                    },
                }
            },
        }
    }
}

impl SleepPoll {
    fn pending() -> (r: Self)
        ensures
            quiet(r, false, None),
    {
        SleepPoll {
            state: Poll::Pending,
            wake: None,
            wake_task: false,
            released: None,
            unused: None,
            needs_waker: false,
        }
    }

    fn needing_waker() -> (r: Self)
        ensures
            asks_for_waker(r),
    {
        SleepPoll {
            state: Poll::Pending,
            wake: None,
            wake_task: false,
            released: None,
            unused: None,
            needs_waker: true,
        }
    }
}

/// The registration under `held` ended, and its waiter came back.
pub open spec fn released_by(
    before: Timer,
    after: Timer,
    held: Option<TimerHandle>,
    released: Option<Waker>,
) -> bool {
    &&& after.generation() == before.generation()
    &&& match held {
        Some(handle) => {
            &&& after.live() == before.live().remove(handle)
            &&& released == if before.live().contains_key(handle) {
                Some(before.live()[handle].waker)
            } else {
                None
            }
        },
        None => after == before && released is None,
    }
}

/// A poll of a sleep that holds no registration: it registers the clone of the
/// task's waiter, or completes where the deadline has passed, after one yield
/// where that was asked for.
pub open spec fn polled_unregistered(
    before: Sleep,
    after: Sleep,
    timer: Timer,
    timer2: Timer,
    now: int,
    replacement: Option<Waker>,
    r: SleepPoll,
) -> bool {
    match replacement {
        None => asks_for_waker(r) && after == before && timer2 == timer,
        Some(clone) => if before.at()@ > now {
            &&& quiet(r, false, None)
            &&& armed(timer, timer2, after.held(), before.at(), clone)
            &&& after.yielded() == before.yielded()
        } else {
            &&& timer2 == timer
            &&& after.held() is None
            &&& r.released is None
            &&& r.unused is None
            &&& !r.needs_waker
            &&& r.wake == Some(clone)
            &&& if before.behavior() == ZeroBehavior::Yield && !before.yielded() {
                r.state == Poll::<()>::Pending && r.wake_task && after.yielded()
            } else {
                r.state == Poll::Ready(()) && !r.wake_task && after.yielded() == before.yielded()
            }
        },
    }
}

/// A poll of a sleep whose registration is live, before the deadline: the waiter
/// is brought up to date, given whether it is known to wake the task.
pub open spec fn polled_live(
    before: Sleep,
    after: Sleep,
    timer: Timer,
    timer2: Timer,
    same: bool,
    replacement: Option<Waker>,
    r: SleepPoll,
) -> bool {
    let handle = before.held()->0;
    &&& after == before
    &&& if same {
        quiet(r, false, replacement) && timer2 == timer
    } else {
        match replacement {
            Some(clone) => {
                &&& r.state == Poll::<()>::Pending
                &&& r.wake is None
                &&& !r.wake_task
                &&& r.unused is None
                &&& !r.needs_waker
                &&& r.released == Some(timer.live()[handle].waker)
                &&& timer2.generation() == timer.generation()
                &&& timer2.layout() == timer.layout()
                &&& timer2.live() == timer.live().insert(
                    handle,
                    Registration { deadline: timer.live()[handle].deadline, waker: clone },
                )
            },
            None => asks_for_waker(r) && timer2 == timer,
        }
    }
}

/// A poll of a sleep that holds a registration: past the deadline it ends the
/// registration and completes; before it the waiter is brought up to date, and a
/// registration that the timers no longer know is replaced.
pub open spec fn polled_registered(
    before: Sleep,
    after: Sleep,
    timer: Timer,
    timer2: Timer,
    now: int,
    later: int,
    waker: Waker,
    replacement: Option<Waker>,
    r: SleepPoll,
) -> bool {
    let handle = before.held()->0;
    &&& after.yielded() == before.yielded()
    &&& !r.wake_task
    &&& if before.at()@ <= now {
        &&& r.state == Poll::Ready(())
        &&& r.wake is None
        &&& r.unused == replacement
        &&& !r.needs_waker
        &&& after.held() is None
        &&& released_by(timer, timer2, before.held(), r.released)
    } else if timer.live().contains_key(handle) {
        exists|same: bool| #[trigger]
            polled_live(before, after, timer, timer2, same, replacement, r) && (same
                ==> same_task(timer.live()[handle].waker, waker))
    } else {
        match replacement {
            None => asks_for_waker(r) && after == before && timer2 == timer,
            Some(clone) => if before.at()@ > later {
                &&& quiet(r, false, None)
                &&& armed(timer, timer2, after.held(), before.at(), clone)
            } else {
                &&& r.state == Poll::Ready(())
                &&& r.released is None
                &&& r.unused is None
                &&& !r.needs_waker
                &&& r.wake == Some(clone)
                &&& after.held() is None
                &&& timer2 == timer
            },
        }
    }
}

/// No wake-up is lost: a sleep that is pending holds a registration that is live,
/// for its own deadline and the task that polled it, or that task is woken once
/// more at once, given that the clone it was handed wakes that task.
pub proof fn pending_sleeps_will_be_woken(
    before: Sleep,
    after: Sleep,
    timer: Timer,
    timer2: Timer,
    now: int,
    later: int,
    waker: Waker,
    replacement: Option<Waker>,
    r: SleepPoll,
)
    requires
        before.held() matches Some(h) ==> timer.live().contains_key(h) ==> timer.live()[h].deadline
            == before.at(),
        replacement matches Some(clone) ==> same_task(clone, waker),
        after.at() == before.at(),
        before.held() is None ==> polled_unregistered(
            before,
            after,
            timer,
            timer2,
            now,
            replacement,
            r,
        ),
        before.held() is Some ==> polled_registered(
            before,
            after,
            timer,
            timer2,
            now,
            later,
            waker,
            replacement,
            r,
        ),
        r.state is Pending,
        !r.needs_waker,
    ensures
        r.wake_task || (after.held() matches Some(h) && {
            &&& timer2.live().contains_key(h)
            &&& timer2.live()[h].deadline == after.at()
            &&& same_task(timer2.live()[h].waker, waker)
        }),
{
}

/// A sleep shorter than 1 ms is a zero-duration sleep: it waits for no timer, and
/// its first poll completes it, or yields where that was asked for and leaves the
/// next poll to complete it. A longer one is pending until its deadline.
pub proof fn tiny_sleeps_take_the_zero_behavior(
    duration: Duration,
    made: int,
    before: Sleep,
    after: Sleep,
    timer: Timer,
    timer2: Timer,
    now: int,
    replacement: Option<Waker>,
    r: SleepPoll,
)
    requires
        before.at()@ == sleep_end(made, duration@),
        !before.yielded(),
        replacement is Some,
        made <= now,
        polled_unregistered(before, after, timer, timer2, now, replacement, r),
    ensures
        duration@ < SHORTEST_SLEEP_NANOS ==> {
            &&& timer2 == timer
            &&& after.held() is None
            &&& match before.behavior() {
                ZeroBehavior::Immediate => r.state == Poll::Ready(()) && !r.wake_task,
                ZeroBehavior::Yield => r.state is Pending && r.wake_task && after.yielded(),
            }
        },
        duration@ >= SHORTEST_SLEEP_NANOS && now < deadline_after_spec(made, duration@)
            ==> r.state is Pending && after.held() is Some,
{
}

/// A poll that is handed a clone of the task's waiter never asks for one.
pub proof fn one_clone_is_enough(
    before: Sleep,
    after: Sleep,
    timer: Timer,
    timer2: Timer,
    now: int,
    later: int,
    waker: Waker,
    replacement: Option<Waker>,
    r: SleepPoll,
)
    requires
        replacement is Some,
        before.held() is None ==> polled_unregistered(
            before,
            after,
            timer,
            timer2,
            now,
            replacement,
            r,
        ),
        before.held() is Some ==> polled_registered(
            before,
            after,
            timer,
            timer2,
            now,
            later,
            waker,
            replacement,
            r,
        ),
    ensures
        !r.needs_waker,
{
}

/// A sleep ends exactly as far ahead as was asked for: one of at least 1 ms after its whole
/// duration, as far as the clock goes, and a tiny one at once.
pub proof fn sleeps_last_as_long_as_asked(
    point: Instant,
    span: Duration,
    behavior: ZeroBehavior,
    plain: Sleep,
    chosen: Sleep,
    until: Sleep,
    until_chosen: Sleep,
)
    requires
        call_ensures(Sleep::new, (point, span), plain),
        call_ensures(Sleep::new_with_zero_behavior, (point, span, behavior), chosen),
        call_ensures(Sleep::sleep_until, (point,), until),
        call_ensures(Sleep::sleep_until_with_zero_behavior, (point, behavior), until_chosen),
    ensures
        if span@ < 1_000_000 {
            plain.at()@ == point@
        } else if point@ + span@ <= 9_223_372_036_854_775_807_999_999_999 {
            plain.at()@ == point@ + span@
        } else {
            plain.at()@ == 9_223_372_036_854_775_807_999_999_999
        },
        if span@ < 1_000_000 {
            chosen.at()@ == point@
        } else if point@ + span@ <= 9_223_372_036_854_775_807_999_999_999 {
            chosen.at()@ == point@ + span@
        } else {
            chosen.at()@ == 9_223_372_036_854_775_807_999_999_999
        },
        until.at() == point && until_chosen.at() == point,
        plain.behavior() is Immediate && chosen.behavior() == behavior,
        until.behavior() is Immediate && until_chosen.behavior() == behavior,
        plain.held() is None && !plain.done() && !plain.yielded(),
        chosen.held() is None && !chosen.done() && !chosen.yielded(),
        until.held() is None && !until.done() && !until.yielded(),
        until_chosen.held() is None && !until_chosen.done() && !until_chosen.yielded(),
{
}

/// A sleep is over at every poll at or after its deadline, with or without a registration,
/// and at none before: a sleep of at least 1 ms that was made at one point is pending as long
/// as its duration has not passed, and over from then on. Only the one yield that was asked
/// for comes between.
pub proof fn sleeps_are_over_exactly_past_their_deadline(
    point: Instant,
    span: Duration,
    made: Sleep,
    before: Sleep,
    after: Sleep,
    timer: Timer,
    timer2: Timer,
    now: Instant,
    later: Instant,
    waker: Waker,
    clone: Waker,
    r: SleepPoll,
)
    requires
        call_ensures(Sleep::new, (point, span), made),
        exists|sleep: &mut Sleep, timers: &mut Timer|
            *sleep == before && *final(sleep) == after && *timers == timer && *final(timers)
                == timer2
                && #[trigger] call_ensures(
                Sleep::poll,
                (sleep, timers, now, later, &waker, Some(clone)),
                r,
            ),
        before.at() == made.at() && before.behavior() is Immediate && !before.done(),
        point@ + span@ <= 9_223_372_036_854_775_807_999_999_999,
        span@ >= 1_000_000,
        now@ <= later@,
    ensures
        point@ + span@ <= now@ ==> r.state == Poll::Ready(()) && after.done()
            && after.held() is None,
        later@ < point@ + span@ ==> r.state is Pending && !after.done(),
        !r.needs_waker && !r.wake_task,
{
}

/// A poll of a sleep, step by step: one that is over stays so; one that holds no registration
/// is registered for its deadline, or ends, after the one yield where that was asked for; one
/// that holds one gives it up at its deadline and keeps it before, with a waiter of the task;
/// one whose registration is gone is registered again.
pub proof fn polls_of_sleeps_go_step_by_step(
    before: Sleep,
    after: Sleep,
    timer: Timer,
    timer2: Timer,
    now: Instant,
    later: Instant,
    waker: Waker,
    clone: Waker,
    r: SleepPoll,
    h: TimerHandle,
    other: TimerHandle,
)
    requires
        exists|sleep: &mut Sleep, timers: &mut Timer|
            *sleep == before && *final(sleep) == after && *timers == timer && *final(timers)
                == timer2
                && #[trigger] call_ensures(
                Sleep::poll,
                (sleep, timers, now, later, &waker, Some(clone)),
                r,
            ),
        woken_task(clone) == woken_task(waker),
    ensures
        after.at() == before.at() && after.behavior() == before.behavior(),
        !r.needs_waker,
        after.done() <==> r.state == Poll::Ready(()),
        before.done() ==> r.state == Poll::Ready(()) && timer2 == timer && after == before
            && r.wake is None
            && !r.wake_task && r.released is None && r.unused == Some(clone),
        !before.done() && before.held() is None && now@ < before.at()@ ==> {
            &&& r.state is Pending && r.wake is None && !r.wake_task && r.released is None
            &&& after.held() matches Some(fresh) && !timer.live().contains_key(fresh)
                && timer2.live().contains_key(fresh) && timer2.live()[fresh].deadline == before.at()
                && timer2.live()[fresh].waker == clone && (other != fresh ==> (
            timer2.live().contains_key(other) <==> timer.live().contains_key(other)))
        },
        !before.done() && before.held() is None && before.at()@ <= now@ ==> {
            &&& timer2 == timer && after.held() is None && r.wake == Some(clone)
                && r.released is None
            &&& if before.behavior() is Yield && !before.yielded() {
                r.state is Pending && r.wake_task && after.yielded()
            } else {
                r.state == Poll::Ready(()) && !r.wake_task
            }
        },
        !before.done() && before.held() == Some(h) && before.at()@ <= now@ ==> {
            &&& r.state == Poll::Ready(()) && after.held() is None && r.wake is None && !r.wake_task
            &&& !timer2.live().contains_key(h)
            &&& timer.live().contains_key(h) ==> r.released == Some(timer.live()[h].waker)
            &&& other != h ==> (timer2.live().contains_key(other) <==> timer.live().contains_key(
                other,
            ))
        },
        !before.done() && before.held() == Some(h) && now@ < before.at()@
            && timer.live().contains_key(h)
            ==> {
            &&& r.state is Pending && after.held() == Some(h) && r.wake is None && !r.wake_task
            &&& timer2.live().contains_key(h) && timer2.live()[h].deadline
                == timer.live()[h].deadline
            &&& woken_task(timer2.live()[h].waker) == woken_task(waker)
            &&& other != h ==> (timer2.live().contains_key(other) <==> timer.live().contains_key(
                other,
            ))
        },
        !before.done() && before.held() == Some(h) && now@ < before.at()@
            && !timer.live().contains_key(h)
            && later@ < before.at()@ ==> r.state is Pending && r.wake is None && !r.wake_task && (
        after.held() matches Some(fresh) && timer2.live().contains_key(fresh)
            && timer2.live()[fresh].deadline == before.at() && timer2.live()[fresh].waker == clone),
        !before.done() && before.held() == Some(h) && now@ < before.at()@
            && !timer.live().contains_key(h)
            && before.at()@ <= later@ ==> r.state == Poll::Ready(()) && after.held() is None
                && r.wake
            == Some(clone) && timer2 == timer,
{
}

/// A poll without a clone of the waiter asks for one, or needs none: it then neither arms nor
/// wakes anything.
pub proof fn polls_without_a_clone_change_no_waiter(
    before: Sleep,
    after: Sleep,
    timer: Timer,
    timer2: Timer,
    now: Instant,
    later: Instant,
    waker: Waker,
    r: SleepPoll,
)
    requires
        exists|sleep: &mut Sleep, timers: &mut Timer|
            *sleep == before && *final(sleep) == after && *timers == timer && *final(timers)
                == timer2
                && #[trigger] call_ensures(
                Sleep::poll,
                (sleep, timers, now, later, &waker, None),
                r,
            ),
    ensures
        r.needs_waker ==> after == before && timer2 == timer && r.state is Pending,
        !r.needs_waker && !before.done() && now@ < before.at()@ ==> r.state is Pending
            && timer2 == timer
            && before.held() is Some,
        !before.done() && before.held() is Some && before.at()@ <= now@ ==> r.state
            == Poll::Ready(()),
        !before.done() && before.held() is None ==> r.needs_waker,
        r.wake is None && !r.wake_task && r.unused is None,
{
}

/// A sleep that is moved is as new at its new deadline, and one that is dropped or moved gives
/// its registration up, with the waiter.
pub proof fn moved_sleeps_start_anew(
    before: Sleep,
    moved: Sleep,
    dropped: Sleep,
    timer: Timer,
    timer2: Timer,
    timer3: Timer,
    deadline: Instant,
    released: Option<Waker>,
    released2: Option<Waker>,
    h: TimerHandle,
    other: TimerHandle,
)
    requires
        exists|sleep: &mut Sleep, timers: &mut Timer|
            *sleep == before && *final(sleep) == moved && *timers == timer && *final(timers)
                == timer2
                && #[trigger] call_ensures(Sleep::reset, (sleep, timers, deadline), released),
        exists|sleep: &mut Sleep, timers: &mut Timer|
            *sleep == before && *final(sleep) == dropped && *timers == timer && *final(timers)
                == timer3 && #[trigger] call_ensures(Sleep::release, (sleep, timers), released2),
    ensures
        moved.at() == deadline && moved.behavior() == before.behavior(),
        moved.held() is None && !moved.done() && !moved.yielded(),
        dropped.held() is None && dropped.at() == before.at(),
        before.held() == Some(h) ==> {
            &&& !timer2.live().contains_key(h) && !timer3.live().contains_key(h)
            &&& released == released2
            &&& timer.live().contains_key(h) ==> released == Some(timer.live()[h].waker)
            &&& other != h ==> (timer2.live().contains_key(other) <==> timer.live().contains_key(
                other,
            )) && (timer3.live().contains_key(other) <==> timer.live().contains_key(other))
        },
        before.held() is None ==> timer2 == timer && timer3 == timer && released is None,
{
}

/// A sleep tells its deadline, behavior and registration.
pub proof fn sleeps_tell_what_they_are(
    sleep: Sleep,
    deadline: Instant,
    behavior: ZeroBehavior,
    held: Option<TimerHandle>,
)
    requires
        call_ensures(Sleep::deadline, (&sleep,), deadline),
        call_ensures(Sleep::zero_behavior, (&sleep,), behavior),
        call_ensures(Sleep::handle, (&sleep,), held),
    ensures
        deadline == sleep.at() && behavior == sleep.behavior() && held == sleep.held(),
{
}

} // verus!
