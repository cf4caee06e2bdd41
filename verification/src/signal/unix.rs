//! Unix signals.
//!
//! A handler marks a signal as pending and writes to a pipe. A thread of its own
//! reads the pipe, scans the marks and wakes the listeners of each signal. All
//! listeners of one signal share one handler.

use vstd::prelude::*;

use std::collections::HashMap;
use std::task::Waker;

use crate::error::{ErrorKind, IoError};
use crate::op::io_util::invalid_input;
use crate::signal::listeners::{
    following_count, left_for, lists_keys, received, waiting_in, Listener, Listeners, Received,
};
use crate::system::Unix;
use crate::outside::woken_task;

verus! {

broadcast use vstd::std_specs::hash::group_hash_axioms;

/// Covers signal numbers on supported targets, real-time signals among them.
/// Larger values are rejected at registration.
pub const SIGNAL_SLOTS: usize = 128;

/// The number of an interrupted call, on every Unix.
pub const EINTR: i32 = 4;

pub const SIGHUP: i32 = 1;

pub const SIGINT: i32 = 2;

pub const SIGQUIT: i32 = 3;

pub const SIGPIPE: i32 = 13;

pub const SIGALRM: i32 = 14;

pub const SIGTERM: i32 = 15;

/// The number of a Unix signal.
#[derive(Debug, Clone, Copy, PartialEq, Eq, Hash, Structural)]
pub struct SignalKind(pub i32);

impl SignalKind {
    /// The signal of a raw number.
    pub fn new(raw: i32) -> (r: Self)
        ensures
            r.0 == raw,
    {
        SignalKind(raw)
    }

    /// The raw number of the signal.
    pub fn as_raw(self) -> (r: i32)
        ensures
            r == self.0,
    {
        self.0
    }

    /// SIGINT: interrupt (Ctrl-C).
    pub fn interrupt() -> (r: Self)
        ensures
            r.0 == SIGINT,
    {
        SignalKind(SIGINT)
    }

    /// SIGTERM: termination.
    pub fn terminate() -> (r: Self)
        ensures
            r.0 == SIGTERM,
    {
        SignalKind(SIGTERM)
    }

    /// SIGHUP: hangup.
    pub fn hangup() -> (r: Self)
        ensures
            r.0 == SIGHUP,
    {
        SignalKind(SIGHUP)
    }

    /// SIGQUIT: quit.
    pub fn quit() -> (r: Self)
        ensures
            r.0 == SIGQUIT,
    {
        SignalKind(SIGQUIT)
    }

    /// SIGUSR1: user-defined.
    pub fn user_defined1(unix: Unix) -> (r: Self)
        ensures
            r.0 == unix.sigusr1(),
    {
        SignalKind(unix.sigusr1())
    }

    /// SIGUSR2: user-defined.
    pub fn user_defined2(unix: Unix) -> (r: Self)
        ensures
            r.0 == unix.sigusr2(),
    {
        SignalKind(unix.sigusr2())
    }

    /// SIGCHLD: child process terminated or stopped.
    pub fn child(unix: Unix) -> (r: Self)
        ensures
            r.0 == unix.sigchld(),
    {
        SignalKind(unix.sigchld())
    }

    /// SIGALRM: alarm clock.
    pub fn alarm() -> (r: Self)
        ensures
            r.0 == SIGALRM,
    {
        SignalKind(SIGALRM)
    }

    /// SIGPIPE: write to a pipe without readers.
    pub fn pipe() -> (r: Self)
        ensures
            r.0 == SIGPIPE,
    {
        SignalKind(SIGPIPE)
    }
}

impl From<SignalKind> for i32 {
    fn from(kind: SignalKind) -> (r: i32) {
        kind.0
    }
}

impl vstd::std_specs::convert::FromSpecImpl<SignalKind> for i32 {
    open spec fn obeys_from_spec() -> bool {
        true
    }

    open spec fn from_spec(kind: SignalKind) -> i32 {
        kind.0
    }
}

/// Signals that came and were not dispatched yet.
pub struct PendingSignals {
    flags: [bool; 128],
}

impl View for PendingSignals {
    type V = Seq<bool>;

    closed spec fn view(&self) -> Seq<bool> {
        self.flags@
    }
}

impl PendingSignals {
    pub fn new() -> (r: Self)
        ensures
            r@.len() == SIGNAL_SLOTS,
            forall|i: int| 0 <= i < SIGNAL_SLOTS ==> !(#[trigger] r@[i]),
    {
        PendingSignals { flags: [false; 128] }
    }

    /// Mark a signal as pending, and say whether the dispatcher is to be woken. A
    /// number without a slot does neither. The mark comes before the write: if the
    /// pipe is full, a write that is queued already makes the dispatcher scan it.
    pub fn notify(&mut self, signum: i32) -> (r: bool)
        ensures
            r == (0 <= signum < SIGNAL_SLOTS),
            final(self)@ == if r {
                old(self)@.update(signum as int, true)
            } else {
                old(self)@
            },
    {
        if signum < 0 || signum >= 128 {
            return false;
        }
        self.flags[signum as usize] = true;
        assert(self@ =~= old(self)@.update(signum as int, true));
        true
    }

    /// Take the mark of a signal.
    pub fn take(&mut self, signum: usize) -> (r: bool)
        requires
            signum < SIGNAL_SLOTS,
        ensures
            r == old(self)@[signum as int],
            final(self)@ == old(self)@.update(signum as int, false),
    {
        let marked: bool = self.flags[signum];
        self.flags[signum] = false;
        assert(self@ =~= old(self)@.update(signum as int, false));
        marked
    }

    /// Take all marks of signals, the lower number first.
    pub fn take_all(&mut self) -> (taken: Vec<usize>)
        ensures
            taken_from(old(self)@, taken@),
            final(self)@.len() == SIGNAL_SLOTS,
            forall|i: int| 1 <= i < SIGNAL_SLOTS ==> !(#[trigger] final(self)@[i]),
            final(self)@[0] == old(self)@[0],
    {
        let mut taken: Vec<usize> = Vec::new();
        let mut signum: usize = 1;
        while signum < SIGNAL_SLOTS
            invariant
                1 <= signum <= SIGNAL_SLOTS,
                self@.len() == SIGNAL_SLOTS == old(self)@.len(),
                self@[0] == old(self)@[0],
                forall|i: int| 1 <= i < signum ==> !(#[trigger] self@[i]),
                forall|i: int| signum <= i < SIGNAL_SLOTS ==> #[trigger] self@[i] == old(self)@[i],
                forall|i: int|
                    0 <= i < taken@.len() ==> 1 <= #[trigger] taken@[i] < signum && old(
                        self,
                    )@[taken@[i] as int],
                forall|i: int, j: int| 0 <= i < j < taken@.len() ==> taken@[i] < taken@[j],
                forall|s: usize|
                    1 <= s < signum && #[trigger] old(self)@[s as int] ==> taken@.contains(s),
            decreases SIGNAL_SLOTS - signum,
        {
            let ghost before = taken@;
            if self.take(signum) {
                taken.push(signum);
                proof {
                    assert(taken@[before.len() as int] == signum);
                    assert forall|s: usize|
                        1 <= s <= signum && #[trigger] old(self)@[s as int] implies taken@.contains(
                        s,
                    ) by {
                        if s < signum {
                            assert(before.contains(s));
                            let i = choose|i: int| 0 <= i < before.len() && before[i] == s;
                            assert(taken@[i] == s);
                        }
                    }
                }
            }
            signum += 1;
        }
        proof {
            assert forall|s: usize| #[trigger] taken@.contains(s) <==> 1 <= s < SIGNAL_SLOTS
                && old(self)@[s as int] by {
                if taken@.contains(s) {
                    let i = choose|i: int| 0 <= i < taken@.len() && taken@[i] == s;
                    assert(taken@[i] == s);
                }
            }
        }
        taken
    }
}

/// `taken` holds the signals that are marked, the lower number first.
pub open spec fn taken_from(flags: Seq<bool>, taken: Seq<usize>) -> bool {
    &&& forall|s: usize| #[trigger]
        taken.contains(s) <==> 1 <= s < SIGNAL_SLOTS && flags[s as int]
    &&& forall|i: int, j: int| 0 <= i < j < taken.len() ==> taken[i] < taken[j]
}

/// The marks once the signals in `came` came one after the other.
pub open spec fn marked(flags: Seq<bool>, came: Seq<int>) -> Seq<bool>
    decreases came.len(),
{
    if came.len() == 0 {
        flags
    } else {
        marked(flags, came.drop_last()).update(came.last(), true)
    }
}

/// No signal is lost or made up, and none is taken twice: what is taken is what
/// was marked before and every signal that came since, whatever else came in
/// between and however often.
pub proof fn notified_signals_are_taken(flags: Seq<bool>, came: Seq<int>, taken: Seq<usize>)
    requires
        flags.len() == SIGNAL_SLOTS,
        forall|i: int| 0 <= i < came.len() ==> 1 <= #[trigger] came[i] < SIGNAL_SLOTS,
        taken_from(marked(flags, came), taken),
    ensures
        forall|s: usize| #[trigger]
            taken.contains(s) <==> 1 <= s < SIGNAL_SLOTS && (flags[s as int] || came.contains(
                s as int,
            )),
        taken.no_duplicates(),
{
    lemma_marked(flags, came);
    assert forall|s: usize| #[trigger] taken.contains(s) <==> 1 <= s < SIGNAL_SLOTS && (
    flags[s as int] || came.contains(s as int)) by {
        if 1 <= s < SIGNAL_SLOTS {
            assert(marked(flags, came)[s as int] == (flags[s as int] || came.contains(s as int)));
        }
    }
}

proof fn lemma_marked(flags: Seq<bool>, came: Seq<int>)
    requires
        flags.len() == SIGNAL_SLOTS,
        forall|i: int| 0 <= i < came.len() ==> 1 <= #[trigger] came[i] < SIGNAL_SLOTS,
    ensures
        marked(flags, came).len() == SIGNAL_SLOTS,
        forall|s: int|
            0 <= s < SIGNAL_SLOTS ==> #[trigger] marked(flags, came)[s] == (flags[s]
                || came.contains(s)),
    decreases came.len(),
{
    if came.len() > 0 {
        let earlier = came.drop_last();
        lemma_marked(flags, earlier);
        assert forall|s: int| 0 <= s < SIGNAL_SLOTS implies #[trigger] marked(flags, came)[s] == (
        flags[s] || came.contains(s)) by {
            if earlier.contains(s) {
                let i = choose|i: int| 0 <= i < earlier.len() && earlier[i] == s;
                assert(came[i] == s);
            }
            if came.contains(s) && s != came.last() {
                let i = choose|i: int| 0 <= i < came.len() && came[i] == s;
                assert(earlier[i] == s);
            }
            assert(came[came.len() - 1] == came.last());
        }
    }
}

/// What a handler does: with a pipe to write to, it marks the signal and writes
/// the number of the signal to the pipe.
pub fn signal_handler(fd: i32, pending: &mut PendingSignals, signum: i32) -> (r: Option<i32>)
    ensures
        r == if fd >= 0 && 0 <= signum < SIGNAL_SLOTS {
            Some(fd)
        } else {
            None
        },
        final(pending)@ == if r is Some {
            old(pending)@.update(signum as int, true)
        } else {
            old(pending)@
        },
{
    if fd < 0 {
        return None;
    }
    if pending.notify(signum) {
        Some(fd)
    } else {
        None
    }
}

/// Whether a write of a notification is made again: only where a signal cut it
/// short. `error` is the code of a write that failed.
pub fn notification_retry(error: Option<i32>) -> (r: bool)
    ensures
        r == (error == Some(EINTR)),
{
    match error {
        Some(code) => code == EINTR,
        None => false,
    }
}

/// What the dispatcher does after a read from the pipe.
#[derive(Debug, Clone, Copy, PartialEq, Eq, Structural)]
pub enum DispatchStep {
    /// The pipe was closed, or failed.
    Stop,
    /// A signal cut the read short.
    ReadAgain,
    /// Scan the marks of signals: what was read is only a wakeup.
    Scan,
}

pub fn dispatch_step(read: Result<usize, IoError>) -> (r: DispatchStep)
    ensures
        r == match read {
            Ok(count) => if count == 0 {
                DispatchStep::Stop
            } else {
                DispatchStep::Scan
            },
            Err(error) => if error.interrupted() {
                DispatchStep::ReadAgain
            } else {
                DispatchStep::Stop
            },
        },
{
    match read {
        Ok(count) => {
            if count == 0 {
                DispatchStep::Stop
            } else {
                DispatchStep::Scan
            }
        },
        Err(error) => {
            if error.is_interrupted() {
                DispatchStep::ReadAgain
            } else {
                DispatchStep::Stop
            }
        },
    }
}

/// Keep what was set up for the dispatcher only if the dispatcher was started;
/// the pipe is published to handlers after that.
pub fn init_registry_with_start<T>(owners: T, started: Result<(), IoError>) -> (r: Result<
    T,
    IoError,
>)
    ensures
        r == match started {
            Ok(_) => Ok::<T, IoError>(owners),
            Err(error) => Err(error),
        },
{
    match started {
        Ok(_) => Ok(owners),
        Err(error) => Err(error),
    }
}

/// A signal whose handler is installed: its listeners, how many registered for
/// it, and the action that was there before.
pub struct RegisteredSignal<A> {
    pub listeners: Listeners,
    pub refs: usize,
    pub prev_action: A,
}

/// The signals whose handlers are installed.
pub struct Registry<A> {
    signals: HashMap<i32, RegisteredSignal<A>>,
}

/// A listener of one signal.
pub struct Signal {
    pub kind: SignalKind,
    pub listener: Listener,
}

/// What registering for a signal leads to.
#[derive(Debug, Clone, Copy, PartialEq, Eq)]
pub enum RegisterStep {
    Refused(IoError),
    /// The handler is there already.
    Registered,
    /// The handler is to be installed, and the outcome taken in.
    Install,
}

/// What unregistering leads to.
#[derive(Debug, Clone, Copy, PartialEq, Eq, Structural)]
pub enum UnregisterStep {
    /// Nothing is left to be done.
    Done,
    /// The action of before is to be restored, and the outcome taken in.
    Restore,
}

/// The number has a slot, and is not the null signal.
pub open spec fn supported(kind: SignalKind) -> bool {
    1 <= kind.0 < SIGNAL_SLOTS
}

pub open spec fn unsupported_signal() -> IoError {
    invalid_input("unsupported signal number")
}

/// An entry with another number of registrations.
pub open spec fn with_refs<A>(entry: RegisteredSignal<A>, refs: usize) -> RegisteredSignal<A> {
    RegisteredSignal { listeners: entry.listeners, refs, prev_action: entry.prev_action }
}

impl<A> View for Registry<A> {
    type V = Map<i32, RegisteredSignal<A>>;

    closed spec fn view(&self) -> Map<i32, RegisteredSignal<A>> {
        self.signals@
    }
}

/// Refuse a number that has no slot, before anything is set up for it.
pub fn validate_signal(kind: SignalKind) -> (r: Result<(), IoError>)
    ensures
        r == if supported(kind) {
            Ok::<(), IoError>(())
        } else {
            Err(unsupported_signal())
        },
{
    if kind.0 < 1 || kind.0 >= 128 {
        return Err(IoError::Message(ErrorKind::InvalidInput, "unsupported signal number"));
    }
    Ok(())
}

impl<A> Registry<A> {
    pub fn new() -> (r: Self)
        ensures
            r@ == Map::<i32, RegisteredSignal<A>>::empty(),
    {
        Registry { signals: HashMap::new() }
    }

    /// Whether the handler of a signal is installed.
    pub fn is_registered(&self, kind: SignalKind) -> (r: bool)
        ensures
            r == self@.contains_key(kind.0),
    {
        self.signals.contains_key(&kind.0)
    }

    /// Register for a signal. Only the first to do so has the handler installed.
    pub fn register(&mut self, kind: SignalKind) -> (r: RegisterStep)
        requires
            old(self)@.contains_key(kind.0) ==> old(self)@[kind.0].refs < usize::MAX,
        ensures
            r == if !supported(kind) {
                RegisterStep::Refused(unsupported_signal())
            } else if old(self)@.contains_key(kind.0) {
                RegisterStep::Registered
            } else {
                RegisterStep::Install
            },
            final(self)@ == if r is Registered {
                old(self)@.insert(
                    kind.0,
                    with_refs(old(self)@[kind.0], (old(self)@[kind.0].refs + 1) as usize),
                )
            } else {
                old(self)@
            },
    {
        if let Err(error) = validate_signal(kind) {
            return RegisterStep::Refused(error);
        }
        match self.signals.remove(&kind.0) {
            Some(entry) => {
                let mut entry = entry;
                entry.refs = entry.refs + 1;
                self.signals.insert(kind.0, entry);
                assert(self@ =~= old(self)@.insert(
                    kind.0,
                    with_refs(old(self)@[kind.0], (old(self)@[kind.0].refs + 1) as usize),
                ));
                RegisterStep::Registered
            },
            None => {
                assert(self@ =~= old(self)@);
                RegisterStep::Install
            },
        }
    }

    /// Take in the outcome of installing a handler: the action of before, or an
    /// error, which leaves no registration behind.
    pub fn installed(&mut self, kind: SignalKind, outcome: Result<A, IoError>) -> (r: Result<
        (),
        IoError,
    >)
        requires
            !old(self)@.contains_key(kind.0),
        ensures
            match outcome {
                Ok(prev_action) => {
                    &&& r is Ok
                    &&& final(self)@.contains_key(kind.0)
                    &&& final(self)@[kind.0].refs == 1
                    &&& final(self)@[kind.0].prev_action == prev_action
                    &&& final(self)@[kind.0].listeners.slots() == Map::<
                        usize,
                        Option<Waker>,
                    >::empty()
                    &&& final(self)@[kind.0].listeners.count() == 0
                    &&& final(self)@.remove(kind.0) == old(self)@
                },
                Err(error) => r == Err::<(), IoError>(error) && final(self)@ == old(self)@,
            },
    {
        match outcome {
            Ok(prev_action) => {
                let entry = RegisteredSignal { listeners: Listeners::new(), refs: 1, prev_action };
                self.signals.insert(kind.0, entry);
                assert(self@.remove(kind.0) =~= old(self)@);
                Ok(())
            },
            Err(error) => Err(error),
        }
    }

    /// Add a listener to a signal that was registered for.
    pub fn listen(&mut self, kind: SignalKind) -> (signal: Signal)
        requires
            old(self)@.contains_key(kind.0),
        ensures
            signal.kind == kind,
            !old(self)@[kind.0].listeners.slots().contains_key(signal.listener.slot()),
            signal.listener.seen() == old(self)@[kind.0].listeners.count(),
            changed(
                old(self)@,
                final(self)@,
                kind.0,
                old(self)@[kind.0].listeners.slots().insert(signal.listener.slot(), None),
                old(self)@[kind.0].listeners.count(),
            ),
    {
        let ghost before = self@;
        match self.signals.remove(&kind.0) {
            Some(entry) => {
                let mut entry = entry;
                let listener = entry.listeners.listen();
                self.signals.insert(kind.0, entry);
                assert(self@.remove(kind.0) =~= before.remove(kind.0));
                Signal { kind, listener }
            },
            None => {
                let mut unused = Listeners::new();
                Signal { kind, listener: unused.listen() }
            },
        }
    }

    /// Poll a listener for the task that `waker` wakes.
    pub fn poll_recv(
        &mut self,
        signal: &mut Signal,
        waker: &Waker,
        replacement: Option<Waker>,
    ) -> (r: Received)
        requires
            old(self)@.contains_key(old(signal).kind.0),
            old(self)@[old(signal).kind.0].listeners.slots().contains_key(
                old(signal).listener.slot(),
            ),
        ensures
            final(signal).kind == old(signal).kind,
            final(signal).listener.slot() == old(signal).listener.slot(),
            final(signal).listener.seen() == old(self)@[old(signal).kind.0].listeners.count(),
            changed(
                old(self)@,
                final(self)@,
                old(signal).kind.0,
                final(self)@[old(signal).kind.0].listeners.slots(),
                old(self)@[old(signal).kind.0].listeners.count(),
            ),
            exists|same: bool| #[trigger]
                received(
                    old(self)@[old(signal).kind.0].listeners.slots(),
                    final(self)@[old(signal).kind.0].listeners.slots(),
                    old(signal).listener.slot(),
                    old(signal).listener.seen(),
                    old(self)@[old(signal).kind.0].listeners.count(),
                    same,
                    replacement,
                    r,
                ) && (same ==> left_for(
                    old(self)@[old(signal).kind.0].listeners.slots()[old(signal).listener.slot()],
                    *waker,
                )),
    {
        let ghost before = self@;
        let kind: i32 = signal.kind.0;
        match self.signals.remove(&kind) {
            Some(entry) => {
                let mut entry = entry;
                let polled = signal.listener.poll_recv(&mut entry.listeners, waker, replacement);
                let ghost after = entry.listeners.slots();
                let ghost same = choose|same: bool| #[trigger]
                    received(
                        before[kind].listeners.slots(),
                        after,
                        old(signal).listener.slot(),
                        old(signal).listener.seen(),
                        before[kind].listeners.count(),
                        same,
                        replacement,
                        polled,
                    ) && (same ==> left_for(
                        before[kind].listeners.slots()[old(signal).listener.slot()],
                        *waker,
                    ));
                self.signals.insert(kind, entry);
                assert(self@.remove(kind) =~= before.remove(kind));
                assert(self@[kind].listeners.slots() == after);
                polled
            },
            None => Received::NeedsWaker,
        }
    }

    /// Remove a listener. Its waiter, if one is left, comes back to be dropped
    /// outside any lock; the signal is then to be unregistered.
    pub fn retire(&mut self, signal: Signal) -> (retired: Option<Waker>)
        requires
            old(self)@.contains_key(signal.kind.0),
            old(self)@[signal.kind.0].listeners.slots().contains_key(signal.listener.slot()),
        ensures
            retired == old(self)@[signal.kind.0].listeners.slots()[signal.listener.slot()],
            changed(
                old(self)@,
                final(self)@,
                signal.kind.0,
                old(self)@[signal.kind.0].listeners.slots().remove(signal.listener.slot()),
                old(self)@[signal.kind.0].listeners.count(),
            ),
    {
        let ghost before = self@;
        let kind: i32 = signal.kind.0;
        match self.signals.remove(&kind) {
            Some(entry) => {
                let mut entry = entry;
                let retired = entry.listeners.retire(signal.listener);
                self.signals.insert(kind, entry);
                assert(self@.remove(kind) =~= before.remove(kind));
                retired
            },
            None => None,
        }
    }

    /// Unregister from a signal. The last to do so has the action of before
    /// restored; until that has been done the entry stays, so that a registration
    /// in between cannot be overwritten.
    pub fn unregister(&mut self, kind: SignalKind) -> (r: UnregisterStep)
        ensures
            r is Restore <==> old(self)@.contains_key(kind.0) && old(self)@[kind.0].refs <= 1,
            final(self)@ == if old(self)@.contains_key(kind.0) && old(self)@[kind.0].refs > 1 {
                old(self)@.insert(
                    kind.0,
                    with_refs(old(self)@[kind.0], (old(self)@[kind.0].refs - 1) as usize),
                )
            } else {
                old(self)@
            },
    {
        match self.signals.remove(&kind.0) {
            Some(entry) => {
                let mut entry = entry;
                let last: bool = entry.refs <= 1;
                if !last {
                    entry.refs = entry.refs - 1;
                }
                self.signals.insert(kind.0, entry);
                if last {
                    assert(self@ =~= old(self)@);
                    UnregisterStep::Restore
                } else {
                    assert(self@ =~= old(self)@.insert(
                        kind.0,
                        with_refs(old(self)@[kind.0], (old(self)@[kind.0].refs - 1) as usize),
                    ));
                    UnregisterStep::Done
                }
            },
            None => {
                assert(self@ =~= old(self)@);
                UnregisterStep::Done
            },
        }
    }

    /// The action to be restored for a signal.
    pub fn prev_action(&self, kind: SignalKind) -> (r: Option<&A>)
        ensures
            r is Some <==> self@.contains_key(kind.0),
            r matches Some(action) ==> *action == self@[kind.0].prev_action,
    {
        match self.signals.get(&kind.0) {
            Some(entry) => Some(&entry.prev_action),
            None => None,
        }
    }

    /// Take in the outcome of restoring an action. Where that failed, the entry
    /// keeps the action for a later attempt, with nobody registered.
    pub fn restored(&mut self, kind: SignalKind, outcome: Result<(), IoError>)
        requires
            old(self)@.contains_key(kind.0),
        ensures
            final(self)@ == if outcome is Ok {
                old(self)@.remove(kind.0)
            } else {
                old(self)@.insert(kind.0, with_refs(old(self)@[kind.0], 0))
            },
    {
        match self.signals.remove(&kind.0) {
            Some(entry) => {
                if outcome.is_err() {
                    let mut entry = entry;
                    entry.refs = 0;
                    self.signals.insert(kind.0, entry);
                    assert(self@ =~= old(self)@.insert(
                        kind.0,
                        with_refs(old(self)@[kind.0], 0),
                    ));
                }
            },
            None => {},
        }
    }

    /// Notify all listeners of a signal. The waiters that were left come back, to
    /// be woken outside any lock.
    pub fn dispatch_signal(&mut self, signum: i32) -> (woken: Vec<Waker>)
        ensures
            if old(self)@.contains_key(signum) {
                &&& changed(
                    old(self)@,
                    final(self)@,
                    signum,
                    final(self)@[signum].listeners.slots(),
                    following_count(old(self)@[signum].listeners.count()),
                )
                &&& final(self)@[signum].listeners.slots().dom()
                    == old(self)@[signum].listeners.slots().dom()
                &&& forall|k: usize| #[trigger]
                    final(self)@[signum].listeners.slots().contains_key(k)
                        ==> final(self)@[signum].listeners.slots()[k] is None
                &&& exists|keys: Seq<usize>| #[trigger]
                    lists_keys(old(self)@[signum].listeners.slots(), keys) && woken@ == waiting_in(
                        old(self)@[signum].listeners.slots(),
                        keys,
                    )
            } else {
                woken@.len() == 0 && final(self)@ == old(self)@
            },
    {
        let ghost before = self@;
        match self.signals.remove(&signum) {
            Some(entry) => {
                let mut entry = entry;
                let woken = entry.listeners.dispatch();
                self.signals.insert(signum, entry);
                assert(self@.remove(signum) =~= before.remove(signum));
                woken
            },
            None => {
                assert(self@ =~= before);
                Vec::new()
            },
        }
    }
}

/// Of all entries only the listeners of one signal changed.
pub open spec fn changed<A>(
    before: Map<i32, RegisteredSignal<A>>,
    after: Map<i32, RegisteredSignal<A>>,
    signum: i32,
    slots: Map<usize, Option<Waker>>,
    count: usize,
) -> bool {
    &&& before.contains_key(signum)
    &&& after.contains_key(signum)
    &&& after.remove(signum) == before.remove(signum)
    &&& after[signum].refs == before[signum].refs
    &&& after[signum].prev_action == before[signum].prev_action
    &&& after[signum].listeners.slots() == slots
    &&& after[signum].listeners.count() == count
}

/// Unregistering undoes registering: where others are registered, only the count
/// goes up and down; where nobody is, the handler that was installed is restored
/// and the entry goes.
pub proof fn unregister_undoes_register<A>(
    before: Map<i32, RegisteredSignal<A>>,
    between: Map<i32, RegisteredSignal<A>>,
    after: Map<i32, RegisteredSignal<A>>,
    signum: i32,
)
    requires
        before.contains_key(signum) ==> {
            &&& 1 <= before[signum].refs < usize::MAX
            &&& between == before.insert(
                signum,
                with_refs(before[signum], (before[signum].refs + 1) as usize),
            )
            &&& after == between.insert(
                signum,
                with_refs(between[signum], (between[signum].refs - 1) as usize),
            )
        },
        !before.contains_key(signum) ==> {
            &&& between.contains_key(signum)
            &&& between.remove(signum) == before
            &&& after == between.remove(signum)
        },
    ensures
        after == before,
        between[signum].refs > 1 || !before.contains_key(signum),
{
    if before.contains_key(signum) {
        assert(after =~= before);
    }
}

/// Signals are known by their numbers.
pub proof fn signals_are_known_by_their_numbers(
    raw: i32,
    unix: Unix,
    kind: SignalKind,
    back: i32,
    interrupt: SignalKind,
    terminate: SignalKind,
    hangup: SignalKind,
    quit: SignalKind,
    usr1: SignalKind,
    usr2: SignalKind,
    child: SignalKind,
    alarm: SignalKind,
    pipe: SignalKind,
)
    requires
        call_ensures(SignalKind::new, (raw,), kind),
        call_ensures(SignalKind::as_raw, (kind,), back),
        call_ensures(SignalKind::interrupt, (), interrupt),
        call_ensures(SignalKind::terminate, (), terminate),
        call_ensures(SignalKind::hangup, (), hangup),
        call_ensures(SignalKind::quit, (), quit),
        call_ensures(SignalKind::user_defined1, (unix,), usr1),
        call_ensures(SignalKind::user_defined2, (unix,), usr2),
        call_ensures(SignalKind::child, (unix,), child),
        call_ensures(SignalKind::alarm, (), alarm),
        call_ensures(SignalKind::pipe, (), pipe),
    ensures
        kind.0 == raw && back == raw,
        interrupt.0 == 2 && terminate.0 == 15 && hangup.0 == 1 && quit.0 == 3 && alarm.0 == 14
            && pipe.0
            == 13,
        unix is Linux ==> usr1.0 == 10 && usr2.0 == 12 && child.0 == 17,
        unix is Macos ==> usr1.0 == 30 && usr2.0 == 31 && child.0 == 20,
{
}

/// A signal is marked once and taken once; only its own mark changes, and only a number with a
/// slot has one.
pub proof fn marks_are_set_and_taken(
    before: PendingSignals,
    notified: PendingSignals,
    taken: PendingSignals,
    fresh: PendingSignals,
    signum: i32,
    number: usize,
    wake: bool,
    had: bool,
    i: int,
)
    requires
        before@.len() == 128,
        number < 128,
        exists|it: &mut PendingSignals|
            *it == before && *final(it) == notified && #[trigger] call_ensures(
                PendingSignals::notify,
                (it, signum),
                wake,
            ),
        exists|it: &mut PendingSignals|
            *it == before && *final(it) == taken && #[trigger] call_ensures(
                PendingSignals::take,
                (it, number),
                had,
            ),
        call_ensures(PendingSignals::new, (), fresh),
        0 <= i < 128,
    ensures
        wake <==> 0 <= signum < 128,
        notified@.len() == 128 && taken@.len() == 128 && fresh@.len() == 128,
        notified@[i] == (before@[i] || i == signum),
        had == before@[number as int],
        taken@[i] == (before@[i] && i != number),
        !fresh@[i],
{
}

/// All marks are taken at once: every signal that is marked, the lower number first and each
/// once, and none else; none is marked after.
pub proof fn all_marks_are_taken(
    before: PendingSignals,
    after: PendingSignals,
    taken: Vec<usize>,
    s: usize,
    i: int,
    j: int,
)
    requires
        before@.len() == 128,
        exists|it: &mut PendingSignals|
            *it == before && *final(it) == after && #[trigger] call_ensures(
                PendingSignals::take_all,
                (it,),
                taken,
            ),
    ensures
        taken@.contains(s) <==> 1 <= s < 128 && before@[s as int],
        0 <= i < j < taken@.len() ==> taken@[i] < taken@[j],
        1 <= i < 128 ==> !after@[i],
{
}

/// A handler with a pipe marks its signal and writes to that pipe; without one, or for a number
/// that has no slot, it does neither.
pub proof fn handlers_mark_and_write(
    fd: i32,
    before: PendingSignals,
    after: PendingSignals,
    signum: i32,
    r: Option<i32>,
    i: int,
)
    requires
        before@.len() == 128,
        exists|pending: &mut PendingSignals|
            *pending == before && *final(pending) == after && #[trigger] call_ensures(
                signal_handler,
                (fd, pending, signum),
                r,
            ),
        0 <= i < 128,
    ensures
        r is Some <==> fd >= 0 && 0 <= signum < 128,
        r matches Some(pipe) ==> pipe == fd,
        after@[i] == (before@[i] || (r is Some && i == signum)),
{
}

/// A write is made again only where a signal cut it short; a dispatcher scans whatever it read,
/// stops at the end of the pipe or at a failure, and reads again where a signal cut it short.
pub proof fn dispatchers_go_on_until_the_pipe_ends<T>(
    code: Option<i32>,
    again: bool,
    read: Result<usize, IoError>,
    step: DispatchStep,
    owners: T,
    started: Result<(), IoError>,
    kept: Result<T, IoError>,
)
    requires
        call_ensures(notification_retry, (code,), again),
        call_ensures(dispatch_step, (read,), step),
        call_ensures(init_registry_with_start::<T>, (owners, started), kept),
    ensures
        again <==> code == Some(4i32),
        step is Scan <==> (read matches Ok(count) && count > 0),
        step is ReadAgain <==> (read matches Err(error) && error.interrupted()),
        kept matches Ok(own) ==> own == owners && started is Ok,
        kept matches Err(error) ==> started == Err::<(), IoError>(error),
{
}

/// Only the first to register for a signal has the handler installed; each later one is counted,
/// and a number without a slot is refused. Nothing else changes.
pub proof fn only_the_first_registration_installs<A>(
    before: Registry<A>,
    after: Registry<A>,
    kind: SignalKind,
    r: RegisterStep,
    other: i32,
    there: bool,
    valid: Result<(), IoError>,
)
    requires
        exists|it: &mut Registry<A>|
            *it == before && *final(it) == after && #[trigger] call_ensures(
                Registry::<A>::register,
                (it, kind),
                r,
            ),
        call_ensures(Registry::<A>::is_registered, (&before, kind), there),
        call_ensures(validate_signal, (kind,), valid),
        before@.contains_key(kind.0) ==> before@[kind.0].refs < usize::MAX,
    ensures
        valid is Ok <==> 1 <= kind.0 < 128,
        r is Refused <==> valid is Err,
        valid matches Err(error) ==> (error matches IoError::Message(class, _)
            && class is InvalidInput)
            && r == RegisterStep::Refused(error),
        r is Registered <==> valid is Ok && there,
        r is Install <==> valid is Ok && !there,
        there <==> before@.contains_key(kind.0),
        r is Registered ==> after@.contains_key(kind.0) && after@[kind.0].refs
            == before@[kind.0].refs + 1
            && after@[kind.0].listeners == before@[kind.0].listeners && after@[kind.0].prev_action
            == before@[kind.0].prev_action,
        !(r is Registered) ==> after@ == before@,
        other != kind.0 ==> (after@.contains_key(other) <==> before@.contains_key(other)) && (
        before@.contains_key(other) ==> after@[other] == before@[other]),
{
}

/// A handler that was installed leaves one registration, with the action of before and nobody who
/// listens yet; one that failed leaves none.
pub proof fn installed_handlers_remember_the_action<A>(
    before: Registry<A>,
    after: Registry<A>,
    kind: SignalKind,
    outcome: Result<A, IoError>,
    r: Result<(), IoError>,
    other: i32,
    k: usize,
)
    requires
        exists|it: &mut Registry<A>|
            *it == before && *final(it) == after && #[trigger] call_ensures(
                Registry::<A>::installed,
                (it, kind, outcome),
                r,
            ),
        !before@.contains_key(kind.0),
    ensures
        r is Ok <==> outcome is Ok,
        outcome matches Err(error) ==> r == Err::<(), IoError>(error) && after@ == before@,
        outcome matches Ok(action) ==> after@.contains_key(kind.0) && after@[kind.0].refs == 1
            && after@[kind.0].prev_action == action && after@[kind.0].listeners.count() == 0
            && !after@[kind.0].listeners.slots().contains_key(k),
        other != kind.0 ==> (after@.contains_key(other) <==> before@.contains_key(other)) && (
        before@.contains_key(other) ==> after@[other] == before@[other]),
{
    if outcome is Ok && other != kind.0 {
        assert(after@.remove(kind.0).contains_key(other) <==> before@.contains_key(other));
        assert(before@.contains_key(other) ==> after@.remove(kind.0)[other] == before@[other]);
    }
}

/// Only the last to unregister has the action of before restored, that one; each earlier one is
/// counted down. The entry goes once the action was restored, and stays for another attempt
/// where that failed.
pub proof fn only_the_last_unregistration_restores<A>(
    before: Registry<A>,
    after: Registry<A>,
    restored: Registry<A>,
    kind: SignalKind,
    r: UnregisterStep,
    outcome: Result<(), IoError>,
    action: Option<&A>,
    other: i32,
)
    requires
        exists|it: &mut Registry<A>|
            *it == before && *final(it) == after && #[trigger] call_ensures(
                Registry::<A>::unregister,
                (it, kind),
                r,
            ),
        call_ensures(Registry::<A>::prev_action, (&before, kind), action),
        before@.contains_key(kind.0),
        exists|it: &mut Registry<A>|
            *it == before && *final(it) == restored && #[trigger] call_ensures(
                Registry::<A>::restored,
                (it, kind, outcome),
                (),
            ),
    ensures
        r is Restore <==> before@[kind.0].refs <= 1,
        r is Restore ==> after@ == before@,
        r is Done ==> after@.contains_key(kind.0) && after@[kind.0].refs + 1 == before@[kind.0].refs
            && after@[kind.0].listeners == before@[kind.0].listeners && after@[kind.0].prev_action
            == before@[kind.0].prev_action,
        action matches Some(own) && *own == before@[kind.0].prev_action,
        restored@.contains_key(kind.0) <==> outcome is Err,
        outcome is Err ==> restored@[kind.0].refs == 0 && restored@[kind.0].prev_action
            == before@[kind.0].prev_action && restored@[kind.0].listeners
            == before@[kind.0].listeners,
        other != kind.0 ==> (after@.contains_key(other) <==> before@.contains_key(other)) && (
        before@.contains_key(other) ==> after@[other] == before@[other]),
        other != kind.0 ==> (restored@.contains_key(other) <==> before@.contains_key(other)) && (
        before@.contains_key(other) ==> restored@[other] == before@[other]),
{
}

/// A signal reaches every listener of its own number: the count goes up, and every waiter that was
/// left is handed out, each once; no other signal changes. Nobody hears of a number that nobody
/// registered for.
pub proof fn signals_reach_all_of_their_listeners<A>(
    before: Registry<A>,
    after: Registry<A>,
    kind: SignalKind,
    woken: Vec<Waker>,
    other: i32,
    k: usize,
)
    requires
        exists|it: &mut Registry<A>|
            *it == before && *final(it) == after && #[trigger] call_ensures(
                Registry::<A>::dispatch_signal,
                (it, kind.0),
                woken,
            ),
        before@.contains_key(kind.0),
    ensures
        exists|order: Seq<usize>|
            #![trigger order.no_duplicates()]
            {
                &&& order.no_duplicates()
                &&& order.len() == woken@.len()
                &&& forall|k: usize| #[trigger]
                    order.contains(k) <==> before@[kind.0].listeners.slots().contains_key(k)
                        && before@[kind.0].listeners.slots()[k] is Some
                &&& forall|i: int|
                    0 <= i < order.len()
                        ==> before@[kind.0].listeners.slots()[#[trigger] order[i]]
                            == Some(woken@[i])
            },
        after@.contains_key(kind.0) && after@[kind.0].refs == before@[kind.0].refs
            && after@[kind.0].prev_action == before@[kind.0].prev_action,
        after@[kind.0].listeners.count() == if before@[kind.0].listeners.count() == usize::MAX {
            0
        } else {
            before@[kind.0].listeners.count() + 1
        },
        after@[kind.0].listeners.slots().contains_key(k) <==> before@[kind.0].listeners.slots().contains_key(
            k,
        ),
        after@[kind.0].listeners.slots().contains_key(k)
            ==> after@[kind.0].listeners.slots()[k] is None,
        other != kind.0 ==> (after@.contains_key(other) <==> before@.contains_key(other)) && (
        before@.contains_key(other) ==> after@[other] == before@[other]),
{
    let keys = choose|keys: Seq<usize>| #[trigger]
        lists_keys(before@[kind.0].listeners.slots(), keys) && woken@
            == waiting_in(before@[kind.0].listeners.slots(), keys);
    assert forall|i: int| 0
        <= i < keys.len() implies before@[kind.0].listeners.slots().contains_key(#[trigger] keys[i]) by {
        assert(keys.contains(keys[i]));
    }
    let order = crate::signal::listeners::lemma_waiting_order(before@[kind.0].listeners.slots(), keys);
    assert(order.no_duplicates());
    assert(after@[kind.0].listeners.slots().dom().contains(k)
        <==> before@[kind.0].listeners.slots().dom().contains(k));
    assert(other != kind.0 ==> (after@.remove(kind.0).contains_key(other) <==> before@.remove(
        kind.0,
    ).contains_key(other)));
    assert(other != kind.0 && before@.contains_key(other) ==> after@.remove(kind.0)[other]
        == before@.remove(kind.0)[other]);
}

/// A number that nobody registered for wakes nobody and changes nothing.
pub proof fn unregistered_signals_wake_nobody<A>(
    before: Registry<A>,
    after: Registry<A>,
    signum: i32,
    woken: Vec<Waker>,
)
    requires
        exists|it: &mut Registry<A>|
            *it == before && *final(it) == after && #[trigger] call_ensures(
                Registry::<A>::dispatch_signal,
                (it, signum),
                woken,
            ),
        !before@.contains_key(signum),
    ensures
        woken@.len() == 0,
        after@ == before@,
{
}

/// A listener of a signal hears of what comes to that signal from when it was added, leaves a
/// waiter of its task while it is pending, and gives its slot up in the end.
pub proof fn listeners_hear_of_their_signal<A>(
    before: Registry<A>,
    added: Registry<A>,
    polled: Registry<A>,
    removed: Registry<A>,
    kind: SignalKind,
    signal: Signal,
    heard: Signal,
    heard2: Signal,
    waker: Waker,
    clone: Waker,
    r: Received,
    retired: Option<Waker>,
)
    requires
        before@.contains_key(kind.0),
        exists|it: &mut Registry<A>|
            *it == before && *final(it) == added && #[trigger] call_ensures(
                Registry::<A>::listen,
                (it, kind),
                signal,
            ),
        heard.kind == kind && before@[kind.0].listeners.slots().contains_key(heard.listener.slot()),
        exists|it: &mut Registry<A>, own: &mut Signal|
            *it == before && *final(it) == polled && *own == heard && *final(own) == heard2
                && #[trigger] call_ensures(
                Registry::<A>::poll_recv,
                (it, own, &waker, Some(clone)),
                r,
            ),
        woken_task(clone) == woken_task(waker),
        exists|it: &mut Registry<A>|
            *it == before && *final(it) == removed && #[trigger] call_ensures(
                Registry::<A>::retire,
                (it, heard),
                retired,
            ),
    ensures
        signal.kind == kind && signal.listener.seen() == before@[kind.0].listeners.count(),
        !before@[kind.0].listeners.slots().contains_key(signal.listener.slot()),
        added@[kind.0].listeners.slots().contains_key(signal.listener.slot()),
        r is Ready <==> heard.listener.seen() != before@[kind.0].listeners.count(),
        !(r is NeedsWaker),
        r is Pending ==> (polled@[kind.0].listeners.slots()[heard.listener.slot()] matches Some(left)
            && woken_task(left) == woken_task(waker)),
        heard2.kind == kind && heard2.listener.slot() == heard.listener.slot()
            && heard2.listener.seen()
            == before@[kind.0].listeners.count(),
        retired == before@[kind.0].listeners.slots()[heard.listener.slot()],
        !removed@[kind.0].listeners.slots().contains_key(heard.listener.slot()),
        added@[kind.0].refs == before@[kind.0].refs && polled@[kind.0].refs == before@[kind.0].refs
            && removed@[kind.0].refs == before@[kind.0].refs,
{
}

/// A poll of a signal without a clone of the waiter is ready where anything came, and else changes
/// nothing; other signals are not touched.
pub proof fn polls_of_signals_without_a_clone_change_nothing<A>(
    before: Registry<A>,
    after: Registry<A>,
    heard: Signal,
    heard2: Signal,
    waker: Waker,
    replacement: Option<Waker>,
    r: Received,
    other: i32,
)
    requires
        before@.contains_key(heard.kind.0),
        before@[heard.kind.0].listeners.slots().contains_key(heard.listener.slot()),
        exists|it: &mut Registry<A>, own: &mut Signal|
            *it == before && *final(it) == after && *own == heard && *final(own) == heard2
                && #[trigger] call_ensures(
                Registry::<A>::poll_recv,
                (it, own, &waker, replacement),
                r,
            ),
    ensures
        r is Ready <==> heard.listener.seen() != before@[heard.kind.0].listeners.count(),
        !(r is Ready) && replacement is None ==> after@[heard.kind.0].listeners.slots()
            == before@[heard.kind.0].listeners.slots(),
        after@[heard.kind.0].listeners.count() == before@[heard.kind.0].listeners.count(),
        heard2.kind == heard.kind && heard2.listener.slot() == heard.listener.slot(),
        other != heard.kind.0 ==> (after@.contains_key(other) <==> before@.contains_key(other)) && (
        before@.contains_key(other) ==> after@[other] == before@[other]),
{
    let kind = heard.kind.0;
    assert(other != kind ==> (after@.remove(kind).contains_key(other) <==> before@.remove(
        kind,
    ).contains_key(other)));
    assert(other != kind && before@.contains_key(other) ==> after@.remove(kind)[other]
        == before@.remove(kind)[other]);
}

} // verus!
