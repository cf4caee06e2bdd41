//! Signals and Ctrl-C: registration, delivery, and those who wait.

use std::sync::atomic::{AtomicUsize, Ordering};
use std::sync::{Arc, Mutex, Weak};
use std::task::{Wake, Waker};

use rsloop_vibeio::error::{ErrorKind, IoError};
use rsloop_vibeio::signal::listeners::{Listener, Listeners, Received};
use rsloop_vibeio::signal::unix::{
    dispatch_step, init_registry_with_start, notification_retry, signal_handler, validate_signal,
    DispatchStep, PendingSignals, RegisterStep, Registry, Signal, SignalKind, UnregisterStep,
    SIGNAL_SLOTS,
};
use rsloop_vibeio::signal::windows::{CtrlCState, CTRL_C_EVENT};
use rsloop_vibeio::system::{System, Unix};

struct WakeCounter(AtomicUsize);

impl Wake for WakeCounter {
    fn wake(self: Arc<Self>) {
        self.0.fetch_add(1, Ordering::Relaxed);
    }
}

fn counter() -> Arc<WakeCounter> {
    Arc::new(WakeCounter(AtomicUsize::new(0)))
}

/// Poll a listener as its future does, and say whether it is ready.
fn poll(listener: &mut Listener, listeners: &mut Listeners, waker: &Waker) -> bool {
    match listener.poll_recv(listeners, waker, None) {
        Received::Ready { .. } => true,
        Received::Pending { .. } => false,
        Received::NeedsWaker => {
            match listener.poll_recv(listeners, waker, Some(waker.clone())) {
                Received::Ready { .. } => true,
                Received::Pending { .. } => false,
                Received::NeedsWaker => panic!("a waiter was supplied"),
            }
        }
    }
}

fn poll_signal<A>(registry: &mut Registry<A>, signal: &mut Signal, waker: &Waker) -> bool {
    match registry.poll_recv(signal, waker, None) {
        Received::Ready { .. } => true,
        Received::Pending { .. } => false,
        Received::NeedsWaker => matches!(
            registry.poll_recv(signal, waker, Some(waker.clone())),
            Received::Ready { .. }
        ),
    }
}

fn registered(registry: &mut Registry<&'static str>, kind: SignalKind) -> Signal {
    match registry.register(kind) {
        RegisterStep::Registered => {}
        RegisterStep::Install => registry.installed(kind, Ok("default")).unwrap(),
        RegisterStep::Refused(error) => panic!("refused: {error:?}"),
    }
    registry.listen(kind)
}

/// A waiter that looks at the shared listeners when it is cloned or dropped.
struct Probe {
    shared: Arc<Mutex<Listeners>>,
    notify: bool,
}

#[test]
fn waker_clone_runs_unlocked_and_rechecks_notifications() {
    for notify in [false, true] {
        let shared = Arc::new(Mutex::new(Listeners::new()));
        let mut listener = shared.lock().unwrap().listen();
        let probe = Probe {
            shared: shared.clone(),
            notify,
        };
        let owner = counter();
        let waker = Waker::from(owner.clone());
        let first = listener.poll_recv(&mut shared.lock().unwrap(), &waker, None);
        assert!(matches!(first, Received::NeedsWaker));
        // The clone is made with nothing locked, and a notification may come.
        let mut unlocked = probe.shared.try_lock().expect("locked during the clone");
        if probe.notify {
            assert!(unlocked.dispatch().is_empty());
        }
        drop(unlocked);
        let replacement = Some(waker.clone());
        let second = listener.poll_recv(&mut shared.lock().unwrap(), &waker, replacement);
        if notify {
            assert!(matches!(second, Received::Ready { .. }));
            assert!(!shared.lock().unwrap().has_waiter(&listener));
        } else {
            assert!(matches!(second, Received::Pending { .. }));
            let third = listener.poll_recv(&mut shared.lock().unwrap(), &waker, None);
            assert!(
                matches!(third, Received::Pending { .. }),
                "unchanged waker should not be cloned again"
            );
        }
        let retired = shared.lock().unwrap().retire(listener);
        drop(retired);
        drop(waker);
        assert_eq!(shared.lock().unwrap().len(), 0);
        assert_eq!(Arc::strong_count(&owner), 1);
    }
}

#[test]
fn full_pipe_preserves_distinct_pending_signals() {
    let mut pending = PendingSignals::new();
    assert!(pending.notify(libc::SIGUSR1));
    assert!(pending.notify(libc::SIGUSR2));
    assert!(pending.notify(libc::SIGUSR1));
    let mut expected = vec![libc::SIGUSR1 as usize, libc::SIGUSR2 as usize];
    expected.sort_unstable();
    assert_eq!(pending.take_all(), expected);
    assert!(pending.take_all().is_empty());
    // A subsequent occurrence is not suppressed by a previous delivery.
    assert!(pending.notify(libc::SIGUSR1));
    assert!(pending.take(libc::SIGUSR1 as usize));
    assert!(!pending.take(libc::SIGUSR1 as usize));
}

#[test]
fn handlers_write_to_a_pipe_that_is_there() {
    let mut pending = PendingSignals::new();
    assert_eq!(signal_handler(-1, &mut pending, libc::SIGINT), None);
    assert!(pending.take_all().is_empty());
    assert_eq!(signal_handler(7, &mut pending, libc::SIGINT), Some(7));
    assert_eq!(
        signal_handler(7, &mut pending, SIGNAL_SLOTS as i32),
        None
    );
    assert_eq!(pending.take_all(), [libc::SIGINT as usize]);
    assert!(notification_retry(Some(libc::EINTR)));
    assert!(!notification_retry(Some(libc::EAGAIN)));
    assert!(!notification_retry(None));
    assert_eq!(dispatch_step(Ok(4)), DispatchStep::Scan);
    assert_eq!(dispatch_step(Ok(0)), DispatchStep::Stop);
    assert_eq!(
        dispatch_step(Err(IoError::Os(System::Linux, libc::EINTR))),
        DispatchStep::ReadAgain
    );
    assert_eq!(
        dispatch_step(Err(IoError::Os(System::Linux, libc::EBADF))),
        DispatchStep::Stop
    );
}

#[test]
fn invalid_signal_numbers_are_rejected() {
    let mut registry: Registry<()> = Registry::new();
    for signum in [-1, 0, SIGNAL_SLOTS as i32, i32::MAX] {
        assert!(matches!(registry.register(SignalKind::new(signum)),
            RegisterStep::Refused(error) if error.kind() == Some(ErrorKind::InvalidInput)));
        assert_eq!(
            validate_signal(SignalKind::new(signum)),
            Err(IoError::Message(
                ErrorKind::InvalidInput,
                "unsupported signal number"
            ))
        );
    }
    for signum in [1, SIGNAL_SLOTS as i32 - 1] {
        assert_eq!(validate_signal(SignalKind::new(signum)), Ok(()));
    }
}

#[test]
fn failed_handler_installation_leaves_no_registration() {
    let mut registry: Registry<()> = Registry::new();
    for signum in [libc::SIGKILL, libc::SIGSTOP] {
        let kind = SignalKind::new(signum);
        for _ in 0..2 {
            assert_eq!(registry.register(kind), RegisterStep::Install);
            let error = registry
                .installed(kind, Err(IoError::Os(System::Linux, libc::EINVAL)))
                .unwrap_err();
            assert_eq!(error.raw_os_error(), Some(libc::EINVAL));
            assert!(!registry.is_registered(kind));
        }
    }
}

#[test]
fn startup_failure_releases_registry_and_pipe_owners() {
    let owners = Arc::new(());
    let weak: Weak<()> = Arc::downgrade(&owners);
    let result = init_registry_with_start(
        owners,
        Err(IoError::Message(
            ErrorKind::Other,
            "injected thread startup failure",
        )),
    );
    assert!(result.is_err());
    assert!(weak.upgrade().is_none());
    assert_eq!(init_registry_with_start(5, Ok(())), Ok(5));
}

#[test]
fn listeners_replace_and_release_wakers_independently() {
    let mut registry = Registry::new();
    let kind = SignalKind::user_defined2(Unix::Linux);
    let mut first = registered(&mut registry, kind);
    let mut second = registered(&mut registry, kind);
    let old = counter();
    let new = counter();
    let old_waker = Waker::from(old.clone());
    let new_waker = Waker::from(new.clone());
    assert!(!poll_signal(&mut registry, &mut first, &old_waker));
    assert!(!poll_signal(&mut registry, &mut second, &old_waker));
    assert_eq!(Arc::strong_count(&old), 4);
    assert!(!poll_signal(&mut registry, &mut first, &new_waker));
    assert_eq!(Arc::strong_count(&old), 3);
    drop(registry.retire(second));
    assert_eq!(registry.unregister(kind), UnregisterStep::Done);
    assert_eq!(Arc::strong_count(&old), 2);
    for waiter in registry.dispatch_signal(kind.as_raw()) {
        waiter.wake();
    }
    assert_eq!(new.0.load(Ordering::Relaxed), 1);
    assert!(poll_signal(&mut registry, &mut first, &new_waker));
    assert_eq!(Arc::strong_count(&new), 2);
    assert!(registry.retire(first).is_none());
    assert_eq!(registry.unregister(kind), UnregisterStep::Restore);
    assert_eq!(registry.prev_action(kind), Some(&"default"));
    registry.restored(kind, Ok(()));
    assert!(!registry.is_registered(kind));
}

/// From the handler to the waiter, as a real signal travels.
fn deliver(
    registry: &mut Registry<&'static str>,
    pending: &mut PendingSignals,
    signum: i32,
) -> usize {
    assert_eq!(signal_handler(3, pending, signum), Some(3));
    let mut woken = 0;
    for taken in pending.take_all() {
        for waiter in registry.dispatch_signal(taken as i32) {
            waiter.wake();
            woken += 1;
        }
    }
    woken
}

#[test]
fn signal_recv_unblocks() {
    let mut registry = Registry::new();
    let mut pending = PendingSignals::new();
    let kind = SignalKind::user_defined1(Unix::Linux);
    let mut signal = registered(&mut registry, kind);
    let owner = counter();
    let waker = Waker::from(owner.clone());
    assert!(!poll_signal(&mut registry, &mut signal, &waker));
    assert_eq!(deliver(&mut registry, &mut pending, kind.as_raw()), 1);
    assert_eq!(owner.0.load(Ordering::Relaxed), 1);
    assert!(poll_signal(&mut registry, &mut signal, &waker));
    assert!(!poll_signal(&mut registry, &mut signal, &waker));
    assert_eq!(deliver(&mut registry, &mut pending, libc::SIGHUP), 0);
}

#[test]
fn ctrl_c_unblocks_on_sigint() {
    let mut registry = Registry::new();
    let mut pending = PendingSignals::new();
    let mut ctrl_c = registered(&mut registry, SignalKind::interrupt());
    let owner = counter();
    let waker = Waker::from(owner.clone());
    assert!(!poll_signal(&mut registry, &mut ctrl_c, &waker));
    deliver(
        &mut registry,
        &mut pending,
        SignalKind::interrupt().as_raw(),
    );
    assert!(poll_signal(&mut registry, &mut ctrl_c, &waker));
}

#[test]
fn failed_restoration_is_kept_for_later() {
    let mut registry = Registry::new();
    let kind = SignalKind::hangup();
    let signal = registered(&mut registry, kind);
    assert!(registry.retire(signal).is_none());
    assert_eq!(registry.unregister(kind), UnregisterStep::Restore);
    registry.restored(kind, Err(IoError::Os(System::Linux, libc::EINVAL)));
    assert!(registry.is_registered(kind));
    assert_eq!(registry.register(kind), RegisterStep::Registered);
    assert_eq!(registry.unregister(kind), UnregisterStep::Restore);
    registry.restored(kind, Ok(()));
    assert_eq!(registry.register(kind), RegisterStep::Install);
    assert_eq!(
        registry.unregister(SignalKind::quit()),
        UnregisterStep::Done
    );
}

#[test]
fn kinds_are_the_numbers_of_the_platform() {
    for (kind, number) in [
        (SignalKind::interrupt(), libc::SIGINT),
        (SignalKind::terminate(), libc::SIGTERM),
        (SignalKind::hangup(), libc::SIGHUP),
        (SignalKind::quit(), libc::SIGQUIT),
        (SignalKind::user_defined1(Unix::Linux), libc::SIGUSR1),
        (SignalKind::user_defined2(Unix::Linux), libc::SIGUSR2),
        (SignalKind::child(Unix::Linux), libc::SIGCHLD),
        (SignalKind::alarm(), libc::SIGALRM),
        (SignalKind::pipe(), libc::SIGPIPE),
    ] {
        assert_eq!(kind.as_raw(), number);
        assert_eq!(i32::from(kind), number);
        assert_eq!(SignalKind::new(number), kind);
    }
    assert_eq!(
        CTRL_C_EVENT,
        windows_sys::Win32::System::Console::CTRL_C_EVENT
    );
}

#[test]
fn initialization_publishes_state_before_callback_and_retries_failure() {
    let mut state = CtrlCState::new();
    assert!(state.listeners().is_none());
    assert!(state.begin());
    assert!(state.listeners().is_some());
    let failed = state.installation(Err(IoError::Simple(ErrorKind::PermissionDenied)));
    assert!(
        matches!(failed, Err(error) if error.kind() == Some(ErrorKind::PermissionDenied))
    );
    assert!(!state.is_installed());
    assert!(state.begin());
    // The newly registered callback may arrive before installation returns.
    assert_eq!(state.ctrl_c_handler(CTRL_C_EVENT).0, 1);
    state.installation(Ok(())).unwrap();
    assert_eq!(state.listeners().unwrap().notifications(), 1);
    assert!(state.is_installed());
    assert!(!state.begin(), "successful installation must not be repeated");
    assert_eq!(state.listeners().unwrap().notifications(), 1);
}

#[test]
fn listener_slots_replace_release_and_broadcast_wakers() {
    let mut state = Listeners::new();
    let mut first = state.listen();
    let mut second = state.listen();
    let old = counter();
    let old_waker = Waker::from(old.clone());
    assert!(!poll(&mut first, &mut state, &old_waker));
    let current = counter();
    let waker = Waker::from(current.clone());
    assert!(!poll(&mut first, &mut state, &waker));
    assert_eq!(
        Arc::strong_count(&old),
        2,
        "replacement must release old capture"
    );
    assert!(!poll(&mut second, &mut state, &waker));
    assert_eq!(state.len(), 2);
    drop(state.retire(first));
    assert_eq!(state.len(), 1);
    for waiter in state.dispatch() {
        waiter.wake();
    }
    assert_eq!(old.0.load(Ordering::Relaxed), 0);
    assert_eq!(current.0.load(Ordering::Relaxed), 1);
    assert!(poll(&mut second, &mut state, &waker));
    assert!(!poll(&mut second, &mut state, &waker));
    let mut third = state.listen();
    assert!(!poll(&mut third, &mut state, &waker));
    for waiter in state.dispatch() {
        waiter.wake();
    }
    assert_eq!(current.0.load(Ordering::Relaxed), 3);
    drop(state.retire(second));
    drop(state.retire(third));
    assert_eq!(state.len(), 0);
    assert_eq!(Arc::strong_count(&current), 2);
}

#[test]
fn notification_during_clone_is_observed_without_locked_callbacks() {
    let shared = Arc::new(Mutex::new(CtrlCState::new()));
    shared.lock().unwrap().begin();
    let mut ctrl_c = shared.lock().unwrap().listeners().unwrap().listen();
    let owner = counter();
    let waker = Waker::from(owner.clone());
    let first = ctrl_c.poll_recv(
        shared.lock().unwrap().listeners().unwrap(),
        &waker,
        None,
    );
    assert!(matches!(first, Received::NeedsWaker));
    let unlocked = shared.try_lock();
    unlocked
        .expect("locked during the clone")
        .ctrl_c_handler(CTRL_C_EVENT);
    let second = ctrl_c.poll_recv(
        shared.lock().unwrap().listeners().unwrap(),
        &waker,
        Some(waker.clone()),
    );
    assert!(matches!(second, Received::Ready { .. }));
    assert!(!shared
        .lock()
        .unwrap()
        .listeners()
        .unwrap()
        .has_waiter(&ctrl_c));
    drop(second);
    drop(waker);
    assert_eq!(Arc::strong_count(&owner), 1);
}

#[test]
fn ctrl_c_unblocks_on_handler() {
    let mut state = CtrlCState::new();
    assert!(state.begin());
    state.installation(Ok(())).unwrap();
    let mut ctrl_c = state.listeners().unwrap().listen();
    let owner = counter();
    let waker = Waker::from(owner.clone());
    assert!(!poll(&mut ctrl_c, state.listeners().unwrap(), &waker));
    let (other, woken) = state.ctrl_c_handler(CTRL_C_EVENT + 1);
    assert_eq!(other, 0);
    assert!(woken.is_empty());
    let (handled, woken) = state.ctrl_c_handler(CTRL_C_EVENT);
    assert_eq!(handled, 1);
    for waiter in woken {
        waiter.wake();
    }
    assert_eq!(owner.0.load(Ordering::Relaxed), 1);
    assert!(poll(&mut ctrl_c, state.listeners().unwrap(), &waker));
}

#[test]
fn a_waiter_known_to_be_the_same_stays() {
    let mut state = Listeners::new();
    let mut listener = state.listen();
    let first = counter();
    assert!(matches!(
        listener.receive(&mut state, false, Some(Waker::from(first.clone()))),
        Received::Pending { retired: None }
    ));
    assert!(matches!(
        listener.receive(&mut state, true, None),
        Received::Pending { retired: None }
    ));
    assert!(matches!(
        listener.receive(&mut state, false, None),
        Received::NeedsWaker
    ));
    assert!(matches!(
        listener.receive(&mut state, false, Some(Waker::noop().clone())),
        Received::Pending { retired: Some(_) }
    ));
}

#[test]
fn notifications_in_between_are_heard_of_once() {
    let mut listeners = Listeners::new();
    let mut first = listeners.listen();
    let mut second = listeners.listen();
    let woken = [counter(), counter()];
    let wakers = [Waker::from(woken[0].clone()), Waker::from(woken[1].clone())];
    assert!(!poll(&mut first, &mut listeners, &wakers[0]));
    assert!(!poll(&mut second, &mut listeners, &wakers[1]));
    for _ in 0..3 {
        for waiter in listeners.dispatch() {
            waiter.wake();
        }
    }
    // Each waiter was left once, and each listener is ready once.
    assert_eq!(woken[0].0.load(Ordering::SeqCst), 1);
    assert_eq!(woken[1].0.load(Ordering::SeqCst), 1);
    assert!(poll(&mut first, &mut listeners, &wakers[0]));
    assert!(!poll(&mut first, &mut listeners, &wakers[0]));
    assert!(poll(&mut second, &mut listeners, &wakers[1]));
    assert!(!poll(&mut second, &mut listeners, &wakers[1]));
}

#[test]
fn signal_numbers_are_those_of_the_system() {
    for (unix, numbers) in [
        (Unix::Linux, [libc::SIGUSR1, libc::SIGUSR2, libc::SIGCHLD]),
        (Unix::Macos, [30, 31, 20]),
    ] {
        assert_eq!(
            [
                SignalKind::user_defined1(unix).as_raw(),
                SignalKind::user_defined2(unix).as_raw(),
                SignalKind::child(unix).as_raw(),
            ],
            numbers
        );
    }
}
