//! Wake-ups of tasks, from their own thread and from others.

use rsloop_vibeio::task::{RemoteWakeContext, TaskWake, WakeStep};

#[test]
fn borrowed_waker_only_clones_thread_safe_proxy() {
    fn assert_send_sync<T: Send + Sync>() {}
    assert_send_sync::<TaskWake>();
    // A task whose executor is gone is left alone.
    let mut wake = TaskWake::new(1, 0);
    let owned = wake;
    assert_eq!(wake.wake(None, 1), WakeStep::Done);
    assert_eq!(wake, owned);
}

#[test]
fn borrowed_wakes_enqueue_one_proxy_until_dequeued() {
    let mut remote = RemoteWakeContext::new();
    let mut wake = TaskWake::new(1, 17);
    for _ in 0..2 {
        assert_eq!(wake.wake(Some(&mut remote), 2), WakeStep::Done);
        assert_eq!(wake.wake(Some(&mut remote), 2), WakeStep::Done);
        assert_eq!(remote.pop(), Some(17));
        assert_eq!(remote.pop(), None);
        wake.mark_dequeued();
    }
}

#[test]
fn local_wakes_are_offered_to_the_running_executor_first() {
    let mut remote = RemoteWakeContext::new();
    let mut wake = TaskWake::new(1, 17);
    assert_eq!(wake.wake(Some(&mut remote), 1), WakeStep::OfferLocal);
    assert_eq!(remote.pop(), None);
    assert_eq!(wake.local_refused(&mut remote), WakeStep::Done);
    assert_eq!(remote.pop(), Some(17));
}

#[test]
fn a_waiting_executor_is_interrupted_once() {
    let mut remote = RemoteWakeContext::new();
    remote.set_waiting(true);
    let mut first = TaskWake::new(1, 1);
    let mut second = TaskWake::new(1, 2);
    assert_eq!(first.wake(Some(&mut remote), 2), WakeStep::Interrupt);
    assert_eq!(second.wake(Some(&mut remote), 2), WakeStep::Done);
    assert_eq!(remote.pop(), Some(1));
    assert_eq!(remote.pop(), Some(2));
    remote.interrupt_received();
    first.mark_dequeued();
    assert_eq!(first.wake(Some(&mut remote), 2), WakeStep::Interrupt);
    remote.set_waiting(false);
    remote.interrupt_received();
    second.mark_dequeued();
    assert_eq!(second.wake(Some(&mut remote), 2), WakeStep::Done);
}

#[test]
fn wakes_from_any_threads_queue_a_task_once() {
    let mut remote = RemoteWakeContext::new();
    remote.set_waiting(true);
    let mut wake = TaskWake::new(1, 17);
    assert_eq!(wake.wake(Some(&mut remote), 2), WakeStep::Interrupt);
    for thread in [1, 2, 3] {
        assert_eq!(wake.wake(Some(&mut remote), thread), WakeStep::Done);
    }
    assert_eq!(remote.pop(), Some(17));
    assert_eq!(remote.pop(), None);
}
