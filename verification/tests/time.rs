//! Timers, sleeps, intervals and timeouts on a clock that the tests set.

use std::cell::Cell;
use std::future::Future;
use std::marker::PhantomPinned;
use std::pin::Pin;
use std::rc::Rc;
use std::sync::atomic::{AtomicUsize, Ordering};
use std::sync::{Arc, Mutex, Weak};
use std::task::{Context, Wake, Waker};

use rsloop_vibeio::clock::{Duration, Instant};
use rsloop_vibeio::poll::Poll;
use rsloop_vibeio::time;
use rsloop_vibeio::time::deadline_after;
use rsloop_vibeio::time::interval::{duration_remainder, Interval, MissedTickBehavior, Tick};
use rsloop_vibeio::time::sleep::{Sleep, SleepPoll, ZeroBehavior};
use rsloop_vibeio::time::timeout::{Timeout, TimeoutError, TimeoutPoll};
use rsloop_vibeio::timer::{DeadlineHeap, SpinEvent, SpinStep, Timer, WakerUpdate};

struct WakeCounter(AtomicUsize);

impl Wake for WakeCounter {
    fn wake(self: Arc<Self>) {
        self.0.fetch_add(1, Ordering::Relaxed);
    }
}

fn counter() -> Arc<WakeCounter> {
    Arc::new(WakeCounter(AtomicUsize::new(0)))
}

fn waker_of(counter: &Arc<WakeCounter>) -> Waker {
    Waker::from(Arc::clone(counter))
}

fn base() -> Instant {
    Instant::from_parts(1_000, 500)
}

fn after(point: Instant, duration: Duration) -> Instant {
    point.checked_add(duration).unwrap()
}

/// Spin timers of which no waiter is due, and give the time to the next deadline.
fn idle(timer: &mut Timer) -> Option<Duration> {
    let (wait, expired) = spin(timer, base());
    assert!(expired.is_empty());
    wait
}

/// Spin the timers at one instant, and give the waiters that are due unwoken.
fn spin(timer: &mut Timer, now: Instant) -> (Option<Duration>, Vec<Waker>) {
    let SpinStep::Wake { expired, spin } = timer.spin_and_get_deadline(SpinEvent::Begun { now })
    else {
        panic!("a spin wakes first")
    };
    let SpinStep::Done { wait, woken_up } =
        timer.spin_and_get_deadline(SpinEvent::Woken { spin, now })
    else {
        panic!("a spin wakes once")
    };
    assert_eq!(woken_up, !expired.is_empty());
    (wait, expired)
}

/// Poll a sleep, and again with a clone of the waker where it asks for one.
fn sleep_step(
    sleep: &mut Sleep,
    timer: &mut Timer,
    now: Instant,
    later: Instant,
    waker: &Waker,
) -> SleepPoll {
    let polled = sleep.poll(timer, now, later, waker, None);
    if !polled.needs_waker {
        return polled;
    }
    assert_eq!(polled.state, Poll::Pending);
    let polled = sleep.poll(timer, now, later, waker, Some(waker.clone()));
    assert!(!polled.needs_waker);
    polled
}

/// Poll a sleep as an executor does, and report whether it is over.
fn poll_sleep(sleep: &mut Sleep, timer: &mut Timer, now: Instant, waker: &Waker) -> bool {
    let polled = sleep_step(sleep, timer, now, now, waker);
    if let Some(due) = polled.wake {
        due.wake();
    }
    if polled.wake_task {
        waker.wake_by_ref();
    }
    matches!(polled.state, Poll::Ready(()))
}

#[test]
fn updating_waiter_preserves_heap_and_rejects_stale_handles() {
    let mut timer = Timer::new();
    let deadline = after(base(), Duration::from_secs(60));
    let first = counter();
    let second = counter();
    let handle = timer
        .submit(base(), deadline, waker_of(&first))
        .unwrap();
    let layout = timer.heap().clone();
    let waker = waker_of(&second);
    assert!(matches!(
        timer.update_waker(handle, &waker, None),
        WakerUpdate::NeedsWaker
    ));
    assert!(matches!(
        timer.update_waker(handle, &waker, Some(waker.clone())),
        WakerUpdate::Replaced { .. }
    ));
    assert_eq!(*timer.heap(), layout);
    assert_eq!(timer.deadline(), Some(deadline));
    timer.cancel(handle);
    let next = timer
        .submit(base(), deadline, waker_of(&first))
        .unwrap();
    assert_eq!(handle.slab_index(), next.slab_index());
    assert_ne!(handle, next);
    assert!(matches!(
        timer.update_waker(handle, &waker, None),
        WakerUpdate::Stale { unused: None }
    ));
    for waker in timer.take_expired(deadline) {
        waker.wake();
    }
    assert_eq!(first.0.load(Ordering::SeqCst), 1);
    assert_eq!(second.0.load(Ordering::SeqCst), 0);
}

/// A waiter that looks at the timers when it is dropped: nobody may hold them.
struct ReenterOnDrop {
    timer: Weak<Mutex<Timer>>,
    armed: bool,
    calls: Arc<AtomicUsize>,
}

impl Wake for ReenterOnDrop {
    fn wake(self: Arc<Self>) {}
}

impl Drop for ReenterOnDrop {
    fn drop(&mut self) {
        if let Some(timer) = self.timer.upgrade() {
            let mut timer = timer.try_lock().expect("the timers are borrowed");
            assert_eq!(idle(&mut timer).is_some(), self.armed);
            self.calls.fetch_add(1, Ordering::SeqCst);
        }
    }
}

#[test]
fn updating_waiter_drops_replaced_waker_outside_heap_borrow() {
    let timer = Arc::new(Mutex::new(Timer::new()));
    let calls = Arc::new(AtomicUsize::new(0));
    let waiter = Waker::from(Arc::new(ReenterOnDrop {
        timer: Arc::downgrade(&timer),
        armed: true,
        calls: calls.clone(),
    }));
    let handle = timer
        .lock()
        .unwrap()
        .submit(base(), after(base(), Duration::from_secs(60)), waiter)
        .unwrap();
    let waker = Waker::noop();
    let updated = timer
        .lock()
        .unwrap()
        .update_waker(handle, waker, Some(waker.clone()));
    let WakerUpdate::Replaced { replaced } = updated else {
        panic!("the waiter was not replaced")
    };
    drop(replaced);
    assert_eq!(calls.load(Ordering::SeqCst), 1);
}

#[test]
fn cancellation_drops_wakers_outside_heap_borrow() {
    let timer = Arc::new(Mutex::new(Timer::new()));
    let calls = Arc::new(AtomicUsize::new(0));
    let waiter = Waker::from(Arc::new(ReenterOnDrop {
        timer: Arc::downgrade(&timer),
        armed: false,
        calls: calls.clone(),
    }));
    let handle = timer
        .lock()
        .unwrap()
        .submit(base(), after(base(), Duration::from_secs(60)), waiter)
        .unwrap();
    let released = timer.lock().unwrap().cancel(handle);
    drop(released);
    assert_eq!(calls.load(Ordering::SeqCst), 1);
}

/// A waiter that spins the timers and arms one of its own when it is woken.
struct ReenterOnWake {
    timer: Weak<Mutex<Timer>>,
    next: Instant,
}

impl Wake for ReenterOnWake {
    fn wake(self: Arc<Self>) {
        let timer = self.timer.upgrade().unwrap();
        let mut timer = timer.try_lock().expect("the timers are borrowed");
        assert_eq!(idle(&mut timer), None);
        assert!(timer
            .submit(base(), self.next, Waker::noop().clone())
            .is_ok());
    }
}

#[test]
fn expiry_allows_nested_spin_and_returns_callback_inserted_deadline() {
    let timer = Arc::new(Mutex::new(Timer::new()));
    let next = after(base(), Duration::from_secs(60));
    let waiter = Waker::from(Arc::new(ReenterOnWake {
        timer: Arc::downgrade(&timer),
        next,
    }));
    // Arm the timer a moment before it is due.
    let earlier = Instant::from_parts(1_000, 499);
    assert!(timer.lock().unwrap().submit(earlier, base(), waiter).is_ok());
    let begun = timer
        .lock()
        .unwrap()
        .spin_and_get_deadline(SpinEvent::Begun { now: base() });
    let SpinStep::Wake { expired, spin } = begun else {
        panic!("a spin wakes first")
    };
    assert_eq!(expired.len(), 1);
    for waiter in expired {
        waiter.wake();
    }
    // The deadline that the callback armed counts, as does the time it took.
    let now = after(base(), Duration::from_secs(1));
    let woken = timer
        .lock()
        .unwrap()
        .spin_and_get_deadline(SpinEvent::Woken { spin, now });
    let SpinStep::Done { wait, woken_up } = woken else {
        panic!("a spin wakes once")
    };
    assert_eq!(wait, Some(Duration::from_secs(59)));
    assert!(woken_up);
    assert_eq!(timer.lock().unwrap().deadline(), Some(next));
    assert!(timer.lock().unwrap().take_expired(base()).is_empty());
}

#[test]
fn nearest_deadline_and_cancel_are_exact() {
    let mut timer = Timer::new();
    let counter = counter();
    let later = timer
        .submit(
            base(),
            after(base(), Duration::from_secs(2)),
            waker_of(&counter),
        )
        .unwrap();
    let sooner = timer
        .submit(
            base(),
            after(base(), Duration::from_secs(1)),
            waker_of(&counter),
        )
        .unwrap();
    let wait = idle(&mut timer);
    assert_eq!(wait, Some(Duration::from_secs(1)));
    assert!(wait.unwrap().as_nanos() < Duration::from_secs(2).as_nanos());
    timer.cancel(sooner);
    timer.cancel(later);
    assert_eq!(idle(&mut timer), None);
}

#[test]
fn stale_handle_cannot_cancel_reused_slot() {
    let mut timer = Timer::new();
    let counter = counter();
    let stale = timer
        .submit(
            base(),
            after(base(), Duration::from_secs(1)),
            waker_of(&counter),
        )
        .unwrap();
    timer.cancel(stale);
    let current = timer
        .submit(
            base(),
            after(base(), Duration::from_secs(2)),
            waker_of(&counter),
        )
        .unwrap();
    assert!(timer.cancel(stale).is_none());
    assert!(idle(&mut timer).is_some());
    assert!(timer.cancel(current).is_some());
}

#[test]
fn expired_timers_wake_as_a_batch() {
    let mut timer = Timer::default();
    let counter = counter();
    let deadline = after(base(), Duration::from_millis(2));
    for _ in 0..8 {
        assert!(timer.submit(base(), deadline, waker_of(&counter)).is_ok());
    }
    let now = after(base(), Duration::from_millis(5));
    let (wait, expired) = spin(&mut timer, now);
    assert_eq!(wait, None);
    assert!(!expired.is_empty());
    for waiter in expired {
        waiter.wake();
    }
    assert_eq!(counter.0.load(Ordering::Relaxed), 8);
}

#[test]
fn sub_millisecond_deadline_is_not_rounded_to_immediate() {
    let counter = counter();
    let mut deadlines = DeadlineHeap::new();
    let deadline = after(base(), Duration::from_micros(500));
    let handle = deadlines.insert(deadline, waker_of(&counter));
    assert_eq!(deadlines.deadline(), Some(deadline));
    deadlines.remove(handle);
    assert_eq!(deadlines.deadline(), None);
}

#[test]
fn waiters_come_out_in_the_order_of_their_deadlines() {
    let mut timer = Timer::new();
    let order = [7u64, 3, 9, 1, 8, 2, 6, 5, 4, 10, 12, 11];
    let log = Arc::new(Mutex::new(Vec::new()));
    struct Logged(u64, Arc<Mutex<Vec<u64>>>);
    impl Wake for Logged {
        fn wake(self: Arc<Self>) {
            self.1.lock().unwrap().push(self.0);
        }
    }
    let mut cancelled = None;
    for millis in order {
        let handle = timer
            .submit(
                base(),
                after(base(), Duration::from_millis(millis)),
                Waker::from(Arc::new(Logged(millis, log.clone()))),
            )
            .unwrap();
        if millis == 6 {
            cancelled = Some(handle);
        }
    }
    assert!(timer.cancel(cancelled.unwrap()).is_some());
    for waiter in timer.take_expired(after(base(), Duration::from_millis(9))) {
        waiter.wake();
    }
    assert_eq!(*log.lock().unwrap(), [1, 2, 3, 4, 5, 7, 8, 9]);
    assert_eq!(
        timer.deadline(),
        Some(after(base(), Duration::from_millis(10)))
    );
    for waiter in timer.take_expired(after(base(), Duration::from_millis(20))) {
        waiter.wake();
    }
    assert_eq!(*log.lock().unwrap(), [1, 2, 3, 4, 5, 7, 8, 9, 10, 11, 12]);
    assert_eq!(timer.deadline(), None);
}

#[test]
fn due_timers_are_handed_back_unarmed() {
    let mut timer = Timer::new();
    let counter = counter();
    match timer.submit(base(), base(), waker_of(&counter)) {
        Ok(_) => panic!("a timer that is due was armed"),
        Err(waiter) => waiter.wake(),
    }
    assert_eq!(counter.0.load(Ordering::Relaxed), 1);
    assert_eq!(timer.deadline(), None);
}

#[test]
fn waiters_known_to_be_the_same_stay() {
    let mut timer = Timer::new();
    let first = counter();
    let second = counter();
    let handle = timer
        .submit(
            base(),
            after(base(), Duration::from_secs(1)),
            waker_of(&first),
        )
        .unwrap();
    let WakerUpdate::Kept { unused } = timer.exchange_waker(handle, true, Some(waker_of(&second)))
    else {
        panic!("the waiter was replaced")
    };
    drop(unused.unwrap());
    assert_eq!(Arc::strong_count(&first), 2);
    assert_eq!(Arc::strong_count(&second), 1);
    assert!(matches!(
        timer.exchange_waker(handle, false, None),
        WakerUpdate::NeedsWaker
    ));
    assert_eq!(Arc::strong_count(&first), 2);
    let WakerUpdate::Replaced { replaced } =
        timer.exchange_waker(handle, false, Some(waker_of(&second)))
    else {
        panic!("the waiter was kept")
    };
    drop(replaced);
    assert_eq!(Arc::strong_count(&first), 1);
    assert_eq!(Arc::strong_count(&second), 2);
}

#[test]
fn absolute_deadline_constructor_preserves_expired_targets() {
    let deadline = Instant::from_parts(999, 500);
    let sleep = Sleep::sleep_until_with_zero_behavior(deadline, ZeroBehavior::Yield);
    assert_eq!(sleep.deadline(), deadline);
    assert!(matches!(sleep.zero_behavior(), ZeroBehavior::Yield));
}

#[test]
fn spurious_polls_preserve_registration_and_replace_waiter() {
    let mut timer = Timer::new();
    let mut sleep = Sleep::new(base(), Duration::from_secs(60));
    let first = counter();
    let second = counter();
    let first_waker = waker_of(&first);
    let second_waker = waker_of(&second);
    assert!(!poll_sleep(&mut sleep, &mut timer, base(), &first_waker));
    let handle = sleep.handle();
    assert!(handle.is_some());
    for _ in 0..10 {
        assert!(!poll_sleep(&mut sleep, &mut timer, base(), &first_waker));
        assert_eq!(sleep.handle(), handle);
    }
    assert!(!poll_sleep(&mut sleep, &mut timer, base(), &second_waker));
    assert_eq!(sleep.handle(), handle);
    assert_eq!(Arc::strong_count(&first), 2);
    assert_eq!(Arc::strong_count(&second), 3);
    drop(sleep.release(&mut timer));
    assert_eq!(Arc::strong_count(&second), 2);
}

#[test]
fn completed_sleep_releases_registration_before_timer_is_drained() {
    let mut timer = Timer::new();
    let mut sleep = Sleep::new(base(), Duration::from_secs(60));
    let owner = counter();
    let waker = waker_of(&owner);
    assert!(!poll_sleep(&mut sleep, &mut timer, base(), &waker));
    assert_eq!(Arc::strong_count(&owner), 3);
    let now = sleep.deadline();
    assert!(poll_sleep(&mut sleep, &mut timer, now, &waker));
    assert_eq!(Arc::strong_count(&owner), 2);
    assert!(idle(&mut timer).is_none());
    assert!(poll_sleep(&mut sleep, &mut timer, now, &waker));
    assert_eq!(owner.0.load(Ordering::Relaxed), 0);
}

#[test]
fn overdue_sleep_yields_once_where_asked() {
    let mut timer = Timer::new();
    let owner = counter();
    let waker = waker_of(&owner);
    let mut sleep =
        time::sleep_with_zero_behavior(base(), Duration::zero(), ZeroBehavior::Yield);
    assert!(!poll_sleep(&mut sleep, &mut timer, base(), &waker));
    assert_eq!(owner.0.load(Ordering::Relaxed), 2);
    assert!(poll_sleep(&mut sleep, &mut timer, base(), &waker));
    let mut immediate = time::sleep(base(), Duration::zero());
    assert!(poll_sleep(&mut immediate, &mut timer, base(), &waker));
    assert_eq!(timer.deadline(), None);
}

#[test]
fn sleeps_shorter_than_a_millisecond_take_the_zero_behavior() {
    let mut timer = Timer::new();
    let owner = counter();
    let waker = waker_of(&owner);
    for tiny in [
        Duration::from_nanos(1),
        Duration::from_micros(900),
        Duration::from_nanos(999_999),
    ] {
        for mut sleep in [time::sleep(base(), tiny), Sleep::new(base(), tiny)] {
            assert_eq!(sleep.deadline(), base());
            assert!(poll_sleep(&mut sleep, &mut timer, base(), &waker));
        }
        for mut sleep in [
            time::sleep_with_zero_behavior(base(), tiny, ZeroBehavior::Yield),
            Sleep::new_with_zero_behavior(base(), tiny, ZeroBehavior::Yield),
        ] {
            assert!(!poll_sleep(&mut sleep, &mut timer, base(), &waker));
            assert_eq!(sleep.handle(), None);
            assert!(poll_sleep(&mut sleep, &mut timer, base(), &waker));
        }
        // An absolute deadline and a timeout are exact.
        let mut sleep = time::sleep_until(after(base(), tiny));
        assert!(!poll_sleep(&mut sleep, &mut timer, base(), &waker));
        drop(sleep.release(&mut timer));
        let mut timeout = time::timeout(base(), tiny, Box::pin(std::future::pending::<()>()));
        assert_eq!(
            poll_timeout(&mut timeout, &mut timer, base()),
            Poll::Pending
        );
        drop(timeout.release(&mut timer));
    }
    let mut sleep = time::sleep(base(), Duration::from_millis(1));
    assert_eq!(sleep.deadline(), after(base(), Duration::from_millis(1)));
    assert!(!poll_sleep(&mut sleep, &mut timer, base(), &waker));
    assert!(sleep.handle().is_some());
}

#[test]
fn stale_cancels_leave_the_heap_as_it_was() {
    let mut timer = Timer::new();
    let owner = counter();
    let handles: Vec<_> = [5u64, 3, 8, 1, 9]
        .into_iter()
        .map(|secs| {
            timer
                .submit(
                    base(),
                    after(base(), Duration::from_secs(secs)),
                    waker_of(&owner),
                )
                .unwrap()
        })
        .collect();
    assert!(timer.cancel(handles[1]).is_some());
    let layout = timer.heap().clone();
    assert_eq!(layout.len(), 4);
    assert!(timer.cancel(handles[1]).is_none());
    assert_eq!(*timer.heap(), layout);
}

#[test]
fn sleep_replaces_a_registration_that_the_timers_forgot() {
    let mut timer = Timer::new();
    let owner = counter();
    let waker = waker_of(&owner);
    let mut sleep = time::sleep_until(after(base(), Duration::from_secs(5)));
    assert!(!poll_sleep(&mut sleep, &mut timer, base(), &waker));
    let handle = sleep.handle().unwrap();
    timer.cancel(handle);
    assert!(!poll_sleep(&mut sleep, &mut timer, base(), &waker));
    assert_ne!(sleep.handle(), Some(handle));
    timer.cancel(sleep.handle().unwrap());
    // The clock passes the deadline between the first look and the second.
    let polled = sleep_step(
        &mut sleep,
        &mut timer,
        base(),
        after(base(), Duration::from_secs(5)),
        &waker,
    );
    assert_eq!(polled.state, Poll::Ready(()));
    assert!(polled.wake.is_some());
}

#[test]
fn reset_moves_a_sleep() {
    let mut timer = Timer::new();
    let owner = counter();
    let waker = waker_of(&owner);
    let mut sleep = Sleep::new(base(), Duration::from_secs(1));
    assert!(!poll_sleep(&mut sleep, &mut timer, base(), &waker));
    let moved = after(base(), Duration::from_secs(9));
    assert!(sleep.reset(&mut timer, moved).is_some());
    assert_eq!(timer.deadline(), None);
    assert_eq!(sleep.handle(), None);
    assert!(!poll_sleep(
        &mut sleep,
        &mut timer,
        after(base(), Duration::from_secs(2)),
        &waker
    ));
    assert_eq!(timer.deadline(), Some(moved));
}

/// A future that must not move and notes when it is dropped.
struct PinnedFuture {
    ready: Rc<Cell<bool>>,
    dropped: Rc<Cell<bool>>,
    address: Cell<Option<String>>,
    _pinned: PhantomPinned,
}

impl Future for PinnedFuture {
    type Output = u8;

    fn poll(self: Pin<&mut Self>, _: &mut Context<'_>) -> std::task::Poll<u8> {
        let this = self.as_ref().get_ref();
        let address = format!("{:p}", this);
        let previous = this.address.replace(Some(address.clone()));
        assert!(previous.is_none() || previous == Some(address));
        if this.ready.get() {
            std::task::Poll::Ready(42)
        } else {
            std::task::Poll::Pending
        }
    }
}

impl Drop for PinnedFuture {
    fn drop(&mut self) {
        let address = self.address.take();
        assert!(address.is_none() || address == Some(format!("{:p}", self)));
        assert!(!self.dropped.replace(true), "future dropped twice");
    }
}

fn future(ready: &Rc<Cell<bool>>, dropped: &Rc<Cell<bool>>) -> Pin<Box<PinnedFuture>> {
    Box::pin(PinnedFuture {
        ready: ready.clone(),
        dropped: dropped.clone(),
        address: Cell::new(None),
        _pinned: PhantomPinned,
    })
}

/// Poll a timeout as an executor does: the future first, then the deadline.
fn poll_timeout<F: Future>(
    timeout: &mut Timeout<Pin<Box<F>>>,
    timer: &mut Timer,
    now: Instant,
) -> Poll<Result<F::Output, TimeoutError>> {
    if let Some(error) = timeout.expiry() {
        return Poll::Ready(Err(error));
    }
    let mut cx = Context::from_waker(Waker::noop());
    let inner = match timeout.future_mut().unwrap().as_mut().poll(&mut cx) {
        std::task::Poll::Ready(output) => Poll::Ready(output),
        std::task::Poll::Pending => Poll::Pending,
    };
    let waker = Waker::noop();
    let TimeoutPoll {
        state, needs_waker, ..
    } = timeout.poll(inner, timer, now, now, waker, None);
    if needs_waker {
        let polled = timeout.poll(Poll::Pending, timer, now, now, waker, Some(waker.clone()));
        assert!(!polled.needs_waker);
        return polled.state;
    }
    state
}

#[test]
fn absolute_expiration_drops_pending_future_but_ready_result_wins() {
    let mut timer = Timer::new();
    let deadline = Instant::from_parts(999, 500);
    let dropped = Rc::new(Cell::new(false));
    let mut timeout = time::timeout_at(deadline, future(&Rc::new(Cell::new(false)), &dropped));
    assert_eq!(
        poll_timeout(&mut timeout, &mut timer, base()),
        Poll::Ready(Err(TimeoutError))
    );
    assert!(dropped.get());
    let mut timeout = time::timeout_at(deadline, Box::pin(async { 42 }));
    assert_eq!(
        poll_timeout(&mut timeout, &mut timer, base()),
        Poll::Ready(Ok(42))
    );
}

#[test]
fn cancelling_absolute_timeout_releases_registered_timer_and_future() {
    let mut timer = Timer::new();
    let dropped = Rc::new(Cell::new(false));
    let mut timeout = Timeout::new_at(
        future(&Rc::new(Cell::new(false)), &dropped),
        deadline_after(base(), Duration::max()),
    );
    assert_eq!(
        poll_timeout(&mut timeout, &mut timer, base()),
        Poll::Pending
    );
    assert!(idle(&mut timer).is_some());
    drop(timeout.release(&mut timer));
    drop(timeout);
    assert!(dropped.get());
    assert!(idle(&mut timer).is_none());
}

#[test]
fn timeout_drops_pinned_future_before_returning_error() {
    let mut timer = Timer::new();
    let ready = Rc::new(Cell::new(false));
    let dropped = Rc::new(Cell::new(false));
    let mut timeout = Timeout::new(future(&ready, &dropped), base(), Duration::zero());
    assert!(matches!(
        poll_timeout(&mut timeout, &mut timer, base()),
        Poll::Ready(Err(_))
    ));
    assert!(dropped.get());
    assert!(!timeout.has_sleep());
    assert!(matches!(
        poll_timeout(&mut timeout, &mut timer, base()),
        Poll::Ready(Err(_))
    ));
}

#[test]
fn timeout_success_releases_future_and_registered_timer() {
    let mut timer = Timer::new();
    let ready = Rc::new(Cell::new(false));
    let dropped = Rc::new(Cell::new(false));
    let mut timeout = Timeout::new(future(&ready, &dropped), base(), Duration::max());
    assert_eq!(
        poll_timeout(&mut timeout, &mut timer, base()),
        Poll::Pending
    );
    assert!(idle(&mut timer).is_some());
    ready.set(true);
    assert!(matches!(
        poll_timeout(&mut timeout, &mut timer, base()),
        Poll::Ready(Ok(42))
    ));
    assert!(dropped.get());
    assert!(!timeout.has_sleep());
    assert!(idle(&mut timer).is_none());
}

#[test]
fn dropping_pending_timeout_cancels_timer_and_pinned_future() {
    let mut timer = Timer::new();
    let dropped = Rc::new(Cell::new(false));
    let mut timeout = Timeout::new(
        future(&Rc::new(Cell::new(false)), &dropped),
        base(),
        Duration::max(),
    );
    assert_eq!(
        poll_timeout(&mut timeout, &mut timer, base()),
        Poll::Pending
    );
    drop(timeout.release(&mut timer));
    assert!(dropped.get());
    assert!(idle(&mut timer).is_none());
}

#[test]
fn deadline_addition_is_exact_or_saturates_at_platform_limit() {
    let base = base();
    for duration in [
        Duration::zero(),
        Duration::from_nanos(1),
        Duration::from_secs(3600),
    ] {
        assert_eq!(
            deadline_after(base, duration),
            base.checked_add(duration).unwrap()
        );
    }
    let largest = deadline_after(base, Duration::max());
    assert!(base.is_before(largest));
    assert!(largest.checked_add(Duration::from_nanos(1)).is_none());
    assert_eq!(deadline_after(largest, Duration::max()), largest);
}

#[test]
fn deadlines_saturate_at_the_last_point_of_the_clock() {
    let last = Instant::from_parts(i64::MAX, 999_999_999);
    assert_eq!(deadline_after(base(), Duration::max()), last);
    assert_eq!(
        time::saturating_deadline(Instant::from_parts(i64::MAX, 0), Duration::from_secs(1)),
        last
    );
    let earliest = Instant::from_parts(i64::MIN, 0);
    assert_eq!(
        deadline_after(earliest, Duration::max()),
        Instant::from_parts(i64::MAX, 999_999_999)
    );
    assert_eq!(
        Instant::from_parts(-5, 0).saturating_duration_since(Instant::from_parts(-7, 1)),
        Duration::new(1, 999_999_999)
    );
    assert_eq!(
        base().saturating_duration_since(last),
        Duration::zero()
    );
}

#[test]
fn maximum_duration_sleep_timeout_and_intervals_remain_pending() {
    let mut timer = Timer::new();
    let mut sleep = time::sleep(base(), Duration::max());
    assert!(!poll_sleep(&mut sleep, &mut timer, base(), Waker::noop()));
    let mut timeout = time::timeout(
        base(),
        Duration::max(),
        Box::pin(std::future::pending::<()>()),
    );
    assert_eq!(
        poll_timeout(&mut timeout, &mut timer, base()),
        Poll::Pending
    );
    for behavior in [MissedTickBehavior::Skip, MissedTickBehavior::CatchUp] {
        let mut interval = Interval::new(Duration::max());
        interval.set_missed_tick_behavior(behavior);
        match interval.tick_at(base()) {
            Tick::SleepUntil { target } => assert!(base().is_before(target)),
            other => panic!("the tick is due: {other:?}"),
        }
    }
}

#[test]
fn sleep_completes() {
    let mut timer = Timer::new();
    let owner = counter();
    let waker = waker_of(&owner);
    let mut sleep = Sleep::new(base(), Duration::from_millis(1));
    assert!(!poll_sleep(&mut sleep, &mut timer, base(), &waker));
    let now = after(base(), Duration::from_millis(1));
    for waiter in timer.take_expired(now) {
        waiter.wake();
    }
    assert_eq!(owner.0.load(Ordering::Relaxed), 1);
    assert!(poll_sleep(&mut sleep, &mut timer, now, &waker));
}

#[test]
fn timeout_expires() {
    let mut timer = Timer::new();
    let never = Box::pin(futures_util::future::pending::<()>());
    let mut timeout = time::timeout(base(), Duration::from_millis(1), never);
    assert_eq!(
        poll_timeout(&mut timeout, &mut timer, base()),
        Poll::Pending
    );
    let now = after(base(), Duration::from_millis(1));
    match poll_timeout(&mut timeout, &mut timer, now) {
        Poll::Ready(result) => {
            assert!(result.is_err());
            assert_eq!(result.unwrap_err().message(), "operation timed out");
        }
        Poll::Pending => panic!("the deadline has passed"),
    }
}

#[test]
fn timeout_succeeds_if_future_completes() {
    let mut timer = Timer::new();
    let mut timeout = time::timeout(
        base(),
        Duration::from_secs(1),
        Box::pin(async { 123usize }),
    );
    assert_eq!(
        poll_timeout(&mut timeout, &mut timer, base()),
        Poll::Ready(Ok(123usize))
    );
}

/// Run a tick to its end: its wait ends where it says, and the number of polls
/// that were pending comes back with the count.
fn run_tick(interval: &mut Interval, timer: &mut Timer, now: Instant) -> (u64, usize) {
    let tick = interval.tick_at(now);
    match tick {
        Tick::SleepUntil { target } => {
            let mut sleep = Sleep::sleep_until_with_zero_behavior(target, ZeroBehavior::Yield);
            let mut now = now;
            let mut pending = 0;
            while !poll_sleep(&mut sleep, timer, now, Waker::noop()) {
                pending += 1;
                if now.is_before(target) {
                    now = target;
                }
            }
            (interval.complete_tick(tick, now), pending)
        }
        Tick::YieldOnce => (interval.complete_tick(tick, now), 1),
        Tick::CatchUp { .. } => (interval.complete_tick(tick, now), 0),
    }
}

#[test]
fn interval_ticks_skip() {
    let mut timer = Timer::new();
    let mut interval = Interval::new(Duration::from_millis(1));
    // two ticks should complete quickly
    assert_eq!(run_tick(&mut interval, &mut timer, base()), (1, 1));
    let now = after(base(), Duration::from_millis(1));
    assert_eq!(run_tick(&mut interval, &mut timer, now), (1, 1));
    assert_eq!(
        interval.next_deadline,
        Some(after(base(), Duration::from_millis(3)))
    );
}

#[test]
fn overdue_large_period_saturates_its_next_deadline() {
    let now = base();
    let mut timer = Timer::new();
    let mut interval = Interval::new(Duration::max());
    interval.set_missed_tick_behavior(MissedTickBehavior::CatchUp);
    interval.next_deadline = Some(now);
    assert_eq!(run_tick(&mut interval, &mut timer, now).0, 1);
    assert_eq!(
        interval.next_deadline,
        Some(deadline_after(now, Duration::max()))
    );
}

#[test]
fn catchup_counts_exact_boundaries_without_clock_races() {
    let base = base();
    let mut timer = Timer::new();
    for (elapsed_ns, missed, next_ms) in [
        (0, 1, 100),
        (99_999_999, 1, 100),
        (100_000_000, 2, 200),
        (1_000_000_000, 11, 1100),
        (1_050_000_000, 11, 1100),
    ] {
        let mut interval = Interval::new(Duration::from_millis(100));
        interval.set_missed_tick_behavior(MissedTickBehavior::CatchUp);
        interval.next_deadline = Some(base);
        let now = after(base, Duration::from_nanos(elapsed_ns));
        assert_eq!(run_tick(&mut interval, &mut timer, now).0, missed);
        assert_eq!(
            interval.next_deadline,
            Some(after(base, Duration::from_millis(next_ms)))
        );
    }
}

#[test]
fn zero_period_yields_on_every_tick_in_both_modes() {
    let mut timer = Timer::new();
    for behavior in [MissedTickBehavior::Skip, MissedTickBehavior::CatchUp] {
        let mut interval = Interval::new(Duration::zero());
        interval.set_missed_tick_behavior(behavior);
        for _ in 0..3 {
            assert_eq!(run_tick(&mut interval, &mut timer, base()), (1, 1));
        }
    }
}

#[test]
fn cancelling_zero_period_tick_preserves_schedule() {
    let mut timer = Timer::new();
    for behavior in [MissedTickBehavior::Skip, MissedTickBehavior::CatchUp] {
        let mut interval = Interval::new(Duration::zero());
        interval.set_missed_tick_behavior(behavior);
        let original = base();
        interval.next_deadline = Some(original);
        let tick = interval.tick_at(after(base(), Duration::from_nanos(1)));
        assert!(!matches!(tick, Tick::CatchUp { .. }));
        assert_eq!(interval.next_deadline, Some(original));
        assert_eq!(run_tick(&mut interval, &mut timer, base()).0, 1);
    }
}

#[test]
fn skipped_ticks_keep_the_cadence() {
    let mut interval = time::interval_at(base(), Duration::from_millis(100));
    let now = after(base(), Duration::from_millis(250));
    let tick = interval.tick_at(now);
    assert_eq!(
        tick,
        Tick::SleepUntil {
            target: after(base(), Duration::from_millis(300))
        }
    );
    assert_eq!(interval.complete_tick(tick, now), 1);
    assert_eq!(
        interval.next_deadline,
        Some(after(base(), Duration::from_millis(400)))
    );
    interval.reset();
    assert_eq!(
        interval.tick_at(now),
        Tick::SleepUntil {
            target: after(base(), Duration::from_millis(350))
        }
    );
    assert_eq!(
        time::interval(Duration::from_secs(1)).next_deadline,
        None
    );
}

#[test]
fn durations_keep_seconds_and_fraction() {
    let duration = Duration::new(7, 250_000_000);
    assert_eq!(duration.as_secs(), 7);
    assert_eq!(duration.subsec_nanos(), 250_000_000);
    assert_eq!(duration.as_nanos(), 7_250_000_000);
    assert_eq!(
        duration.minus(Duration::from_millis(250)),
        Duration::from_secs(7)
    );
    assert!(!duration.is_zero() && Duration::zero().is_zero());
    assert_eq!(
        Duration::max().as_nanos(),
        std::time::Duration::MAX.as_nanos()
    );
    assert_eq!(
        duration_remainder(duration, Duration::from_secs(2)),
        Duration::new(1, 250_000_000)
    );
}
