//! Ctrl-C on Windows.

use vstd::prelude::*;

use std::task::Waker;

use crate::error::IoError;
use crate::signal::listeners::{following_count, lists_keys, waiting_in, Listeners};

verus! {

/// The console event of Ctrl-C.
pub const CTRL_C_EVENT: u32 = 0;

/// The listeners of Ctrl-C, from the moment on when they can be notified, and
/// whether the handler that notifies them is installed.
pub struct CtrlCState {
    listeners: Option<Listeners>,
    installed: bool,
}

impl CtrlCState {
    /// The listeners, once they were published.
    pub closed spec fn published(self) -> Option<Listeners> {
        self.listeners
    }

    pub closed spec fn handler_installed(self) -> bool {
        self.installed
    }

    pub fn new() -> (r: Self)
        ensures
            r.published() is None,
            !r.handler_installed(),
    {
        CtrlCState { listeners: None, installed: false }
    }

    /// Publish the listeners before the installation can expose the handler, and
    /// say whether the handler is still to be installed.
    pub fn begin(&mut self) -> (install: bool)
        ensures
            install == !old(self).handler_installed(),
            final(self).handler_installed() == old(self).handler_installed(),
            match old(self).published() {
                Some(listeners) => final(self).published() == Some(listeners),
                None => final(self).published() matches Some(fresh) && fresh.count() == 0
                    && fresh.slots() == Map::<usize, Option<Waker>>::empty(),
            },
    {
        if self.listeners.is_none() {
            self.listeners = Some(Listeners::new());
        }
        !self.installed
    }

    /// Take in the outcome of the installation. One that failed leaves the
    /// listeners where they are and can be tried again.
    pub fn installation(&mut self, outcome: Result<(), IoError>) -> (r: Result<(), IoError>)
        ensures
            r == outcome,
            final(self).handler_installed() == (old(self).handler_installed() || outcome is Ok),
            final(self).published() == old(self).published(),
    {
        if outcome.is_ok() {
            self.installed = true;
        }
        outcome
    }

    /// Whether the handler is installed.
    pub fn is_installed(&self) -> (r: bool)
        ensures
            r == self.handler_installed(),
    {
        self.installed
    }

    /// The listeners, once they were published.
    pub fn listeners(&mut self) -> (r: Option<&mut Listeners>)
        ensures
            r is Some <==> old(self).published() is Some,
            r matches Some(listeners) ==> {
                &&& *listeners == old(self).published()->0
                &&& final(self).published() == Some(*final(listeners))
            },
            r is None ==> final(self).published() is None,
            final(self).handler_installed() == old(self).handler_installed(),
    {
        self.listeners.as_mut()
    }

    /// What the handler does: it answers for Ctrl-C alone, and notifies the
    /// listeners that were published. The waiters that were left come back.
    pub fn ctrl_c_handler(&mut self, event: u32) -> (r: (i32, Vec<Waker>))
        ensures
            r.0 == if event == CTRL_C_EVENT {
                1i32
            } else {
                0i32
            },
            final(self).handler_installed() == old(self).handler_installed(),
            match old(self).published() {
                Some(before) if event == CTRL_C_EVENT => {
                    &&& final(self).published() matches Some(after) && {
                        &&& after.count() == following_count(before.count())
                        &&& after.slots().dom() == before.slots().dom()
                        &&& forall|k: usize| #[trigger]
                            after.slots().contains_key(k) ==> after.slots()[k] is None
                    }
                    &&& exists|keys: Seq<usize>| #[trigger]
                        lists_keys(before.slots(), keys) && r.1@ == waiting_in(
                            before.slots(),
                            keys,
                        )
                },
                _ => r.1@.len() == 0 && final(self).published() == old(self).published(),
            },
    {
        if event != CTRL_C_EVENT {
            return (0, Vec::new());
        }
        match self.listeners.take() {
            Some(listeners) => {
                let mut listeners = listeners;
                let woken = listeners.dispatch();
                self.listeners = Some(listeners);
                (1, woken)
            },
            None => (1, Vec::new()),
        }
    }
}

/// The handler answers for Ctrl-C alone: it then counts a notification and hands out every waiter
/// that was left, each once. Any other event is left to others, and changes nothing.
pub proof fn handlers_answer_for_ctrl_c_alone(
    before: CtrlCState,
    after: CtrlCState,
    event: u32,
    r: (i32, Vec<Waker>),
    all: Listeners,
    all2: Listeners,
    k: usize,
)
    requires
        exists|it: &mut CtrlCState|
            *it == before && *final(it) == after && #[trigger] call_ensures(
                CtrlCState::ctrl_c_handler,
                (it, event),
                r,
            ),
        before.published() == Some(all),
        after.published() is Some ==> after.published() == Some(all2),
    ensures
        after.published() is Some,
        r.0 == 1 <==> event == 0,
        r.0 == 0 <==> event != 0,
        event != 0 ==> r.1@.len() == 0 && all2 == all,
        event == 0 ==> exists|order: Seq<usize>|
            #![trigger order.no_duplicates()]
            {
                &&& order.no_duplicates()
                &&& order.len() == r.1@.len()
                &&& forall|k: usize| #[trigger]
                    order.contains(k) <==> all.slots().contains_key(k) && all.slots()[k] is Some
                &&& forall|i: int|
                    0 <= i < order.len() ==> all.slots()[#[trigger] order[i]] == Some(r.1@[i])
            },
        event == 0 ==> all2.count() == if all.count() == usize::MAX {
            0
        } else {
            all.count() + 1
        },
        event == 0 ==> (all2.slots().contains_key(k) <==> all.slots().contains_key(k)) && (
        all2.slots().contains_key(k) ==> all2.slots()[k] is None),
        after.handler_installed() == before.handler_installed(),
{
    if event == 0 {
        let keys = choose|keys: Seq<usize>| #[trigger]
            lists_keys(all.slots(), keys) && r.1@ == waiting_in(all.slots(), keys);
        assert forall|i: int| 0
            <= i < keys.len() implies all.slots().contains_key(#[trigger] keys[i]) by {
            assert(keys.contains(keys[i]));
        }
        let order = crate::signal::listeners::lemma_waiting_order(all.slots(), keys);
        assert(order.no_duplicates());
        assert(all2.slots().dom().contains(k) <==> all.slots().dom().contains(k));
    }
}

/// A handler is installed once, with the listeners published before; one that failed to be can be
/// tried again.
pub proof fn ctrl_c_is_installed_once(
    fresh: CtrlCState,
    begun: CtrlCState,
    done: CtrlCState,
    again: CtrlCState,
    install: bool,
    outcome: Result<(), IoError>,
    r: Result<(), IoError>,
    there: bool,
    install2: bool,
)
    requires
        call_ensures(CtrlCState::new, (), fresh),
        exists|it: &mut CtrlCState|
            *it == fresh && *final(it) == begun && #[trigger] call_ensures(
                CtrlCState::begin,
                (it,),
                install,
            ),
        exists|it: &mut CtrlCState|
            *it == begun && *final(it) == done && #[trigger] call_ensures(
                CtrlCState::installation,
                (it, outcome),
                r,
            ),
        call_ensures(CtrlCState::is_installed, (&done,), there),
        exists|it: &mut CtrlCState|
            *it == done && *final(it) == again && #[trigger] call_ensures(
                CtrlCState::begin,
                (it,),
                install2,
            ),
    ensures
        fresh.published() is None && !fresh.handler_installed(),
        install && begun.published() is Some,
        r == outcome,
        there <==> outcome is Ok,
        install2 <==> outcome is Err,
        again.published() == begun.published(),
{
}

/// The listeners of Ctrl-C are there from when they were published.
pub proof fn published_listeners_are_there(
    before: CtrlCState,
    after: CtrlCState,
    r: Option<&mut Listeners>,
)
    requires
        exists|it: &mut CtrlCState|
            *it == before && *final(it) == after && #[trigger] call_ensures(
                CtrlCState::listeners,
                (it,),
                r,
            ),
    ensures
        r is Some <==> before.published() is Some,
        r matches Some(all) ==> before.published() == Some(*all) && after.published()
            == Some(*final(all)),
        after.handler_installed() == before.handler_installed(),
{
}

/// Ctrl-C before anyone listens wakes nobody, and is answered for.
pub proof fn unheard_ctrl_c_wakes_nobody(
    before: CtrlCState,
    after: CtrlCState,
    event: u32,
    r: (i32, Vec<Waker>),
)
    requires
        exists|it: &mut CtrlCState|
            *it == before && *final(it) == after && #[trigger] call_ensures(
                CtrlCState::ctrl_c_handler,
                (it, event),
                r,
            ),
        before.published() is None,
    ensures
        r.1@.len() == 0 && after.published() is None,
        r.0 == if event == 0 { 1i32 } else { 0i32 },
        after.handler_installed() == before.handler_installed(),
{
}

} // verus!
