//! Listeners that all hear of each notification.

use vstd::prelude::*;

use slab::Slab;
use std::task::Waker;

use crate::outside::{same_task, woken_task};

verus! {

/// The slots that a slab of waiters holds, by key.
pub uninterp spec fn waiter_slots(slab: Slab<Option<Waker>>) -> Map<usize, Option<Waker>>;

/// `slab::Slab::new`: a slab that holds nothing.
#[verifier::external_body]
fn slots_new() -> (r: Slab<Option<Waker>>)
    ensures
        waiter_slots(r).dom() == Set::<usize>::empty(),
{
    Slab::new()
}

/// `slab::Slab::insert`: stores the value under a key that was free and returns
/// the key; every other slot stays.
#[verifier::external_body]
fn slots_insert(slab: &mut Slab<Option<Waker>>, slot: Option<Waker>) -> (key: usize)
    ensures
        !waiter_slots(*old(slab)).contains_key(key),
        waiter_slots(*final(slab)) == waiter_slots(*old(slab)).insert(key, slot),
{
    slab.insert(slot)
}

/// `slab::Slab::get`: the value under the key, or `None` where the key is free.
#[verifier::external_body]
fn slots_get(slab: &Slab<Option<Waker>>, key: usize) -> (r: Option<&Option<Waker>>)
    ensures
        r is Some <==> waiter_slots(*slab).contains_key(key),
        r matches Some(slot) ==> *slot == waiter_slots(*slab)[key],
{
    slab.get(key)
}

/// `slab::Slab::get_mut`: the value under the key, to be changed in place, or
/// `None` where the key is free; every other slot stays.
#[verifier::external_body]
fn slots_get_mut(slab: &mut Slab<Option<Waker>>, key: usize) -> (r: Option<&mut Option<Waker>>)
    ensures
        r is Some <==> waiter_slots(*old(slab)).contains_key(key),
        r matches Some(slot) ==> *slot == waiter_slots(*old(slab))[key] && waiter_slots(
            *final(slab),
        ) == waiter_slots(*old(slab)).insert(key, *final(slot)),
        r is None ==> waiter_slots(*final(slab)) == waiter_slots(*old(slab)),
{
    slab.get_mut(key)
}

/// `slab::Slab::remove`: takes the value under an occupied key out and frees the
/// key; every other slot stays.
#[verifier::external_body]
fn slots_remove(slab: &mut Slab<Option<Waker>>, key: usize) -> (slot: Option<Waker>)
    requires
        waiter_slots(*old(slab)).contains_key(key),
    ensures
        slot == waiter_slots(*old(slab))[key],
        waiter_slots(*final(slab)) == waiter_slots(*old(slab)).remove(key),
{
    slab.remove(key)
}

/// `slab::Slab::len`: the number of occupied keys.
#[verifier::external_body]
fn slots_len(slab: &Slab<Option<Waker>>) -> (r: usize)
    ensures
        r == waiter_slots(*slab).dom().len(),
{
    slab.len()
}

/// `slab::Slab::iter`: walks the occupied keys, the lower first.
#[verifier::external_body]
fn slots_keys(slab: &Slab<Option<Waker>>) -> (keys: Vec<usize>)
    ensures
        lists_keys(waiter_slots(*slab), keys@),
{
    slab.iter().map(|(key, _)| key).collect()
}

/// `keys` holds every key of `slots` once, the lower first.
pub open spec fn lists_keys(slots: Map<usize, Option<Waker>>, keys: Seq<usize>) -> bool {
    &&& forall|k: usize| #[trigger] keys.contains(k) <==> slots.contains_key(k)
    &&& forall|i: int, j: int| 0 <= i < j < keys.len() ==> keys[i] < keys[j]
}

/// The waiters in the slots of the given keys.
pub open spec fn waiting_in(slots: Map<usize, Option<Waker>>, keys: Seq<usize>) -> Seq<Waker>
    decreases keys.len(),
{
    if keys.len() == 0 {
        Seq::empty()
    } else {
        let before = waiting_in(slots, keys.drop_last());
        match slots[keys.last()] {
            Some(waker) => before.push(waker),
            None => before,
        }
    }
}

/// The count after one more notification.
pub open spec fn following_count(count: usize) -> usize {
    if count == usize::MAX {
        0
    } else {
        (count + 1) as usize
    }
}

/// The listeners of one source of notifications, with the count of notifications
/// so far. The count wraps, so only a listener that slept through all of its
/// values would miss them.
pub struct Listeners {
    counter: usize,
    wakers: Slab<Option<Waker>>,
}

/// One listener: the count that it has seen, and the slot of its waiter.
pub struct Listener {
    last_seen: usize,
    waker_slot: usize,
}

/// What polling a listener leads to.
pub enum Received {
    /// A notification came; the waiter that had been left comes back.
    Ready { retired: Option<Waker> },
    /// None came, and the waiter is in its slot. The one that it replaced, if
    /// any, comes back.
    Pending { retired: Option<Waker> },
    /// None came, and another waiter is needed: it is to be cloned outside any
    /// lock, and the listener polled again with it.
    NeedsWaker,
}

impl Listeners {
    /// The slots of all listeners.
    pub closed spec fn slots(self) -> Map<usize, Option<Waker>> {
        waiter_slots(self.wakers)
    }

    /// The notifications so far.
    pub closed spec fn count(self) -> usize {
        self.counter
    }

    pub fn new() -> (r: Self)
        ensures
            r.slots() == Map::<usize, Option<Waker>>::empty(),
            r.count() == 0,
    {
        let r = Listeners { counter: 0, wakers: slots_new() };
        assert(r.slots() =~= Map::<usize, Option<Waker>>::empty());
        r
    }

    /// The number of listeners.
    pub fn len(&self) -> (r: usize)
        ensures
            r == self.slots().dom().len(),
    {
        slots_len(&self.wakers)
    }

    /// The notifications so far.
    pub fn notifications(&self) -> (r: usize)
        ensures
            r == self.count(),
    {
        self.counter
    }

    /// Whether a waiter is in the slot of the listener.
    pub fn has_waiter(&self, listener: &Listener) -> (r: bool)
        ensures
            r == (self.slots().contains_key(listener.slot())
                && self.slots()[listener.slot()] is Some),
    {
        match slots_get(&self.wakers, listener.waker_slot) {
            Some(slot) => slot.is_some(),
            None => false,
        }
    }

    /// Add a listener, which hears of every notification from now on.
    pub fn listen(&mut self) -> (listener: Listener)
        ensures
            !old(self).slots().contains_key(listener.slot()),
            final(self).slots() == old(self).slots().insert(listener.slot(), None),
            final(self).count() == old(self).count(),
            listener.seen() == old(self).count(),
    {
        let waker_slot: usize = slots_insert(&mut self.wakers, None);
        Listener { last_seen: self.counter, waker_slot }
    }

    /// Remove a listener. Its waiter, if one is left, comes back to be dropped
    /// outside any lock.
    pub fn retire(&mut self, listener: Listener) -> (retired: Option<Waker>)
        requires
            old(self).slots().contains_key(listener.slot()),
        ensures
            retired == old(self).slots()[listener.slot()],
            final(self).slots() == old(self).slots().remove(listener.slot()),
            final(self).count() == old(self).count(),
    {
        slots_remove(&mut self.wakers, listener.waker_slot)
    }

    /// Count a notification and take every waiter that was left, to be woken
    /// outside any lock.
    pub fn dispatch(&mut self) -> (woken: Vec<Waker>)
        ensures
            final(self).count() == following_count(old(self).count()),
            final(self).slots().dom() == old(self).slots().dom(),
            forall|k: usize| #[trigger]
                final(self).slots().contains_key(k) ==> final(self).slots()[k] is None,
            exists|keys: Seq<usize>| #[trigger]
                lists_keys(old(self).slots(), keys) && woken@ == waiting_in(
                    old(self).slots(),
                    keys,
                ),
    {
        self.counter = self.counter.wrapping_add(1);
        let mut woken: Vec<Waker> = Vec::new();
        let keys = slots_keys(&self.wakers);
        let ghost before = self.slots();
        let mut i: usize = 0;
        assert(keys@.take(0) =~= Seq::<usize>::empty());
        while i < keys.len()
            invariant
                i <= keys@.len(),
                before == old(self).slots(),
                lists_keys(before, keys@),
                self.counter == following_count(old(self).counter),
                self.slots().dom() == before.dom(),
                woken@ == waiting_in(before, keys@.take(i as int)),
                forall|j: int| 0 <= j < i ==> self.slots()[#[trigger] keys@[j]] is None,
                forall|j: int|
                    i <= j < keys@.len() ==> self.slots()[#[trigger] keys@[j]] == before[keys@[j]],
            decreases keys@.len() - i,
        {
            let key: usize = keys[i];
            assert(keys@.contains(key));
            let taken: Option<Waker> = match slots_get_mut(&mut self.wakers, key) {
                Some(slot) => slot.take(),
                None => None,
            };
            assert(keys@.take(i as int + 1).drop_last() =~= keys@.take(i as int));
            assert(self.slots().dom() =~= before.dom());
            if let Some(waker) = taken {
                woken.push(waker);
            }
            i += 1;
        }
        proof {
            assert(keys@.take(i as int) =~= keys@);
            assert(lists_keys(old(self).slots(), keys@));
            assert forall|k: usize| #[trigger] self.slots().contains_key(k) implies self.slots()[k]
                is None by {
                assert(before.dom().contains(k));
                assert(keys@.contains(k));
            }
        }
        woken
    }
}

impl Listener {
    /// The slot of the listener's waiter.
    pub closed spec fn slot(self) -> usize {
        self.waker_slot
    }

    /// The count of notifications that the listener has seen.
    pub closed spec fn seen(self) -> usize {
        self.last_seen
    }

    /// Poll the listener, given whether the waiter in its slot is known to wake
    /// the polling task, and a clone of that task's waiter where one was made.
    /// A clone that is not needed is dropped.
    pub fn receive(
        &mut self,
        listeners: &mut Listeners,
        same: bool,
        replacement: Option<Waker>,
    ) -> (r: Received)
        requires
            old(listeners).slots().contains_key(old(self).slot()),
        ensures
            final(listeners).count() == old(listeners).count(),
            final(self).slot() == old(self).slot(),
            final(self).seen() == old(listeners).count(),
            received(
                old(listeners).slots(),
                final(listeners).slots(),
                old(self).slot(),
                old(self).seen(),
                old(listeners).count(),
                same,
                replacement,
                r,
            ),
    {
        let ghost before = listeners.slots();
        if listeners.counter != self.last_seen {
            self.last_seen = listeners.counter;
            let retired: Option<Waker> = match slots_get_mut(
                &mut listeners.wakers,
                self.waker_slot,
            ) {
                Some(slot) => slot.take(),
                None => None,
            };
            return Received::Ready { retired };
        }
        if same {
            return Received::Pending { retired: None };
        }
        match replacement {
            Some(waker) => {
                let mut retired: Option<Waker> = Some(waker);
                if let Some(slot) = slots_get_mut(&mut listeners.wakers, self.waker_slot) {
                    core::mem::swap(slot, &mut retired);
                }
                Received::Pending { retired }
            },
            None => Received::NeedsWaker,
        }
    }

    /// Poll the listener for the task that `waker` wakes. Where the waiter in the
    /// slot is not known to wake it, a clone is asked for first; the count is
    /// looked at again afterwards, since a notification may have come while the
    /// clone was made.
    pub fn poll_recv(
        &mut self,
        listeners: &mut Listeners,
        waker: &Waker,
        replacement: Option<Waker>,
    ) -> (r: Received)
        requires
            old(listeners).slots().contains_key(old(self).slot()),
        ensures
            final(listeners).count() == old(listeners).count(),
            final(self).slot() == old(self).slot(),
            final(self).seen() == old(listeners).count(),
            exists|same: bool| #[trigger]
                received(
                    old(listeners).slots(),
                    final(listeners).slots(),
                    old(self).slot(),
                    old(self).seen(),
                    old(listeners).count(),
                    same,
                    replacement,
                    r,
                ) && (same ==> left_for(old(listeners).slots()[old(self).slot()], *waker)),
    {
        let same: bool = match slots_get(&listeners.wakers, self.waker_slot) {
            Some(slot) => match slot {
                Some(current) => current.will_wake(waker),
                None => false,
            },
            None => false,
        };
        self.receive(listeners, same, replacement)
    }
}

/// The waiter in a slot wakes the task that `waker` wakes.
pub open spec fn left_for(slot: Option<Waker>, waker: Waker) -> bool {
    slot matches Some(current) && same_task(current, waker)
}

/// What polling a listener does to the slots, and what comes back. It is ready
/// where the count is no longer the one that it has seen.
pub open spec fn received(
    before: Map<usize, Option<Waker>>,
    after: Map<usize, Option<Waker>>,
    slot: usize,
    seen: usize,
    count: usize,
    same: bool,
    replacement: Option<Waker>,
    r: Received,
) -> bool {
    if seen != count {
        &&& r == Received::Ready { retired: before[slot] }
        &&& after == before.insert(slot, None)
    } else if same {
        &&& r == Received::Pending { retired: None }
        &&& after == before
    } else if replacement is Some {
        &&& r == Received::Pending { retired: before[slot] }
        &&& after == before.insert(slot, replacement)
    } else {
        &&& r is NeedsWaker
        &&& after == before
    }
}

/// The count after `more` notifications, at most a whole turn of them.
pub open spec fn count_after(count: usize, more: nat) -> usize {
    if count + more <= usize::MAX {
        (count + more) as usize
    } else {
        (count + more - usize::MAX - 1) as usize
    }
}

/// Every listener hears of notifications: a poll is ready exactly where any came
/// since the listener was last polled, however many, short of a whole turn of the
/// count. The poll after it is ready only where another one came.
pub proof fn notification_reaches_every_listener(
    first: Map<usize, Option<Waker>>,
    second: Map<usize, Option<Waker>>,
    slot: usize,
    seen: usize,
    more: nat,
    same: bool,
    replacement: Option<Waker>,
    r: Received,
)
    requires
        more <= usize::MAX,
        received(
            first,
            second,
            slot,
            seen,
            count_after(seen, more),
            same,
            replacement,
            r,
        ),
    ensures
        r is Ready <==> more > 0,
        following_count(count_after(seen, more)) == count_after(seen, more + 1),
        count_after(count_after(seen, more), 0) == count_after(seen, more),
{
}

/// No wake-up is lost: a listener that is pending leaves a waiter that wakes the
/// task that polled it, given that the clone it was handed does.
pub proof fn pending_listeners_will_be_woken(
    before: Map<usize, Option<Waker>>,
    after: Map<usize, Option<Waker>>,
    slot: usize,
    seen: usize,
    count: usize,
    same: bool,
    replacement: Option<Waker>,
    r: Received,
    waker: Waker,
)
    requires
        received(before, after, slot, seen, count, same, replacement, r),
        same ==> left_for(before[slot], waker),
        replacement is Some ==> left_for(replacement, waker),
        r is Pending,
    ensures
        left_for(after[slot], waker),
{
}

/// A dispatch wakes exactly the waiters that had been left, as many as there were
/// listeners that had left one.
pub proof fn dispatch_wakes_every_waiter(
    slots: Map<usize, Option<Waker>>,
    keys: Seq<usize>,
    waker: Waker,
)
    requires
        lists_keys(slots, keys),
    ensures
        waiting_in(slots, keys).contains(waker) <==> exists|slot: usize| #[trigger]
            slots.contains_key(slot) && slots[slot] == Some(waker),
        waiting_in(slots, keys).len() == keys.filter(|k: usize| slots[k] is Some).len(),
{
    if exists|slot: usize| #[trigger] slots.contains_key(slot) && slots[slot] == Some(waker) {
        let slot = choose|slot: usize| #[trigger]
            slots.contains_key(slot) && slots[slot] == Some(waker);
        assert(keys.contains(slot));
        let at = choose|i: int| 0 <= i < keys.len() && keys[i] == slot;
        lemma_waiting(slots, keys, at);
    }
    if waiting_in(slots, keys).contains(waker) {
        lemma_left_behind(slots, keys, waker);
        let at = choose|i: int| 0 <= i < keys.len() && slots[#[trigger] keys[i]] == Some(waker);
        assert(keys.contains(keys[at]));
    }
    lemma_waiting_len(slots, keys);
}

proof fn lemma_left_behind(slots: Map<usize, Option<Waker>>, keys: Seq<usize>, waker: Waker)
    requires
        waiting_in(slots, keys).contains(waker),
    ensures
        exists|i: int| 0 <= i < keys.len() && slots[#[trigger] keys[i]] == Some(waker),
    decreases keys.len(),
{
    if keys.len() > 0 {
        if slots[keys.last()] == Some(waker) {
            assert(slots[keys[keys.len() - 1]] == Some(waker));
        } else {
            let before = waiting_in(slots, keys.drop_last());
            let all = waiting_in(slots, keys);
            let i = choose|i: int| 0 <= i < all.len() && all[i] == waker;
            assert(before[i] == waker);
            lemma_left_behind(slots, keys.drop_last(), waker);
            let at = choose|i: int|
                0 <= i < keys.len() - 1 && slots[#[trigger] keys.drop_last()[i]] == Some(waker);
            assert(slots[keys[at]] == Some(waker));
        }
    }
}

proof fn lemma_waiting_len(slots: Map<usize, Option<Waker>>, keys: Seq<usize>)
    ensures
        waiting_in(slots, keys).len() == keys.filter(|k: usize| slots[k] is Some).len(),
    decreases keys.len(),
{
    reveal(Seq::filter);
    if keys.len() > 0 {
        lemma_waiting_len(slots, keys.drop_last());
    }
}

proof fn lemma_waiting(slots: Map<usize, Option<Waker>>, keys: Seq<usize>, at: int)
    requires
        0 <= at < keys.len(),
        slots[keys[at]] is Some,
    ensures
        waiting_in(slots, keys).contains(slots[keys[at]]->0),
    decreases keys.len(),
{
    let before = waiting_in(slots, keys.drop_last());
    let all = waiting_in(slots, keys);
    if at == keys.len() - 1 {
        assert(all[all.len() - 1] == slots[keys[at]]->0);
    } else {
        lemma_waiting(slots, keys.drop_last(), at);
        let i = choose|i: int| 0 <= i < before.len() && before[i] == slots[keys[at]]->0;
        assert(all[i] == before[i]);
    }
}

/// A notification is counted, takes every waiter that was left, each once and none else, and
/// leaves every listener there without one.
pub proof fn notifications_take_every_waiter(
    before: Listeners,
    after: Listeners,
    woken: Vec<Waker>,
    k: usize,
)
    requires
        exists|it: &mut Listeners|
            *it == before && *final(it) == after && #[trigger] call_ensures(
                Listeners::dispatch,
                (it,),
                woken,
            ),
    ensures
        exists|order: Seq<usize>|
            #![trigger order.no_duplicates()]
            {
                &&& order.no_duplicates()
                &&& order.len() == woken@.len()
                &&& forall|k: usize| #[trigger]
                    order.contains(k) <==> before.slots().contains_key(k)
                        && before.slots()[k] is Some
                &&& forall|i: int|
                    0 <= i < order.len() ==> before.slots()[#[trigger] order[i]] == Some(woken@[i])
            },
        after.count() == if before.count() == usize::MAX {
            0
        } else {
            before.count() + 1
        },
        after.slots().contains_key(k) <==> before.slots().contains_key(k),
        after.slots().contains_key(k) ==> after.slots()[k] is None,
{
    let keys = choose|keys: Seq<usize>| #[trigger]
        lists_keys(before.slots(), keys) && woken@ == waiting_in(before.slots(), keys);
    assert forall|i: int| 0
        <= i < keys.len() implies before.slots().contains_key(#[trigger] keys[i]) by {
        assert(keys.contains(keys[i]));
    }
    let order = lemma_waiting_order(before.slots(), keys);
    assert(order.no_duplicates());
    assert(after.slots().dom().contains(k) <==> before.slots().dom().contains(k));
}

/// A poll is ready exactly where the count is not the one that the listener has seen, and sees
/// it then; its waiter comes back. Else the waiter that is left stays where it is known to wake
/// the task, and is replaced by the one that is handed in, or asked for, where it is not. No
/// other slot changes.
pub proof fn polls_hear_of_every_notification(
    before: Listener,
    after: Listener,
    listeners: Listeners,
    listeners2: Listeners,
    same: bool,
    replacement: Option<Waker>,
    r: Received,
    other: usize,
)
    requires
        exists|it: &mut Listener, all: &mut Listeners|
            *it == before && *final(it) == after && *all == listeners && *final(all) == listeners2
                && #[trigger] call_ensures(Listener::receive, (it, all, same, replacement), r),
        listeners.slots().contains_key(before.slot()),
    ensures
        r is Ready <==> before.seen() != listeners.count(),
        r matches Received::Ready { retired } ==> retired == listeners.slots()[before.slot()]
            && listeners2.slots()[before.slot()] is None,
        before.seen() == listeners.count() && same
            ==> (r matches Received::Pending { retired } && retired
            is None) && listeners2.slots() == listeners.slots(),
        before.seen() == listeners.count() && !same && replacement is Some ==> (r matches
            Received::Pending { retired } && retired == listeners.slots()[before.slot()])
            && listeners2.slots()[before.slot()] == replacement,
        before.seen() == listeners.count() && !same && replacement is None ==> r is NeedsWaker
            && listeners2.slots() == listeners.slots(),
        after.seen() == listeners.count() && after.slot() == before.slot(),
        listeners2.count() == listeners.count(),
        listeners2.slots().contains_key(other) <==> listeners.slots().contains_key(other),
        other != before.slot() && listeners.slots().contains_key(other)
            ==> listeners2.slots()[other]
            == listeners.slots()[other],
{
}

/// A poll for a task that is handed a clone of its waiter is ready where anything came since the
/// last, and else leaves a waiter of that task.
pub proof fn pending_polls_leave_a_waiter(
    before: Listener,
    after: Listener,
    listeners: Listeners,
    listeners2: Listeners,
    waker: Waker,
    clone: Waker,
    r: Received,
)
    requires
        exists|it: &mut Listener, all: &mut Listeners|
            *it == before && *final(it) == after && *all == listeners && *final(all) == listeners2
                && #[trigger] call_ensures(Listener::poll_recv, (it, all, &waker, Some(clone)), r),
        listeners.slots().contains_key(before.slot()),
        woken_task(clone) == woken_task(waker),
    ensures
        r is Ready <==> before.seen() != listeners.count(),
        !(r is NeedsWaker),
        r is Pending ==> (listeners2.slots()[before.slot()] matches Some(left) && woken_task(left)
            == woken_task(waker)),
        after.seen() == listeners.count() && after.slot() == before.slot() && listeners2.count()
            == listeners.count(),
{
}

/// A listener has a slot of its own from when it is added until it is removed, hears of what
/// comes from then on, and gives its waiter back.
pub proof fn listeners_come_and_go(
    before: Listeners,
    added: Listeners,
    removed: Listeners,
    listener: Listener,
    gone: Listener,
    retired: Option<Waker>,
    other: usize,
    size: usize,
    heard: usize,
    waits: bool,
    fresh: Listeners,
)
    requires
        exists|it: &mut Listeners|
            *it == before && *final(it) == added && #[trigger] call_ensures(
                Listeners::listen,
                (it,),
                listener,
            ),
        before.slots().contains_key(gone.slot()),
        exists|it: &mut Listeners|
            *it == before && *final(it) == removed && #[trigger] call_ensures(
                Listeners::retire,
                (it, gone),
                retired,
            ),
        call_ensures(Listeners::len, (&before,), size),
        call_ensures(Listeners::notifications, (&before,), heard),
        call_ensures(Listeners::has_waiter, (&before, &gone), waits),
        call_ensures(Listeners::new, (), fresh),
    ensures
        !before.slots().contains_key(listener.slot()) && added.slots().contains_key(listener.slot())
            && added.slots()[listener.slot()] is None,
        listener.seen() == before.count(),
        retired == before.slots()[gone.slot()] && !removed.slots().contains_key(gone.slot()),
        added.count() == before.count() && removed.count() == before.count(),
        other != listener.slot()
            ==> (added.slots().contains_key(other) <==> before.slots().contains_key(
            other,
        )) && (before.slots().contains_key(other) ==> added.slots()[other]
            == before.slots()[other]),
        other != gone.slot()
            ==> (removed.slots().contains_key(other) <==> before.slots().contains_key(
            other,
        )) && (before.slots().contains_key(other) ==> removed.slots()[other]
            == before.slots()[other]),
        size == before.slots().dom().len() && heard == before.count(),
        waits <==> before.slots()[gone.slot()] is Some,
        !fresh.slots().contains_key(other) && fresh.count() == 0,
{
}

/// The keys of the slots that hold a waiter, in the order of their waiters.
pub proof fn lemma_waiting_order(slots: Map<usize, Option<Waker>>, keys: Seq<usize>) -> (order: Seq<
    usize,
>)
    requires
        forall|i: int, j: int| 0 <= i < j < keys.len() ==> keys[i] < keys[j],
        forall|i: int| 0 <= i < keys.len() ==> slots.contains_key(#[trigger] keys[i]),
        forall|k: usize| slots.contains_key(k) && slots[k] is Some ==> #[trigger] keys.contains(k),
    ensures
        order.no_duplicates(),
        order.len() == waiting_in(slots, keys).len(),
        forall|k: usize| #[trigger]
            order.contains(k) <==> slots.contains_key(k) && slots[k] is Some,
        forall|i: int|
            0 <= i < order.len() ==> slots[#[trigger] order[i]] == Some(
                waiting_in(slots, keys)[i],
            ),
{
    let order = lemma_waiting_part(slots, keys);
    assert forall|k: usize| #[trigger] order.contains(k) <==> slots.contains_key(k) && slots[k]
        is Some by {
        if slots.contains_key(k) && slots[k] is Some {
            assert(keys.contains(k));
        }
        if order.contains(k) {
            let at = choose|i: int| 0 <= i < keys.len() && keys[i] == k;
            assert(slots.contains_key(keys[at]));
        }
    }
    order
}

proof fn lemma_waiting_part(slots: Map<usize, Option<Waker>>, keys: Seq<usize>) -> (order: Seq<usize>)
    requires
        forall|i: int, j: int| 0 <= i < j < keys.len() ==> keys[i] < keys[j],
    ensures
        order.no_duplicates(),
        order.len() == waiting_in(slots, keys).len(),
        forall|k: usize| #[trigger] order.contains(k) <==> keys.contains(k) && slots[k] is Some,
        forall|i: int|
            0 <= i < order.len() ==> slots[#[trigger] order[i]] == Some(
                waiting_in(slots, keys)[i],
            ),
    decreases keys.len(),
{
    if keys.len() == 0 {
        Seq::empty()
    } else {
        let fewer = keys.drop_last();
        let last = keys.last();
        let earlier = lemma_waiting_part(slots, fewer);
        assert(!fewer.contains(last));
        assert(keys =~= fewer.push(last));
        assert(forall|k: usize| #[trigger] keys.contains(k) <==> fewer.contains(k) || k
            == last) by {
            assert forall|k: usize| #[trigger] keys.contains(k) <==> fewer.contains(k) || k
                == last by {
                if fewer.contains(k) {
                    let i = choose|i: int| 0 <= i < fewer.len() && fewer[i] == k;
                    assert(keys[i] == k);
                }
                if keys.contains(k) && k != last {
                    let i = choose|i: int| 0 <= i < keys.len() && keys[i] == k;
                    assert(fewer[i] == k);
                }
                assert(keys[keys.len() - 1] == last);
            }
        }
        if slots[last] is Some {
            let order = earlier.push(last);
            assert(!earlier.contains(last));
            assert forall|k: usize| #[trigger] order.contains(k) <==> keys.contains(k) && slots[k]
                is Some by {
                if earlier.contains(k) {
                    let i = choose|i: int| 0 <= i < earlier.len() && earlier[i] == k;
                    assert(order[i] == k);
                }
                if order.contains(k) && k != last {
                    let i = choose|i: int| 0 <= i < order.len() && order[i] == k;
                    assert(earlier[i] == k);
                }
                assert(order[order.len() - 1] == last);
            }
            assert forall|i: int, j: int|
                0 <= i < order.len() && 0 <= j < order.len()
                    && i != j implies order[i] != order[j] by {
                if i == order.len() - 1 {
                    assert(earlier.contains(earlier[j]));
                } else if j == order.len() - 1 {
                    assert(earlier.contains(earlier[i]));
                }
            }
            order
        } else {
            earlier
        }
    }
}

/// A poll without a clone of the waiter is ready where anything came, and else keeps the waiter that is
/// left, where it wakes the task, or asks for one: then nothing changes.
pub proof fn polls_without_a_clone_keep_the_waiter(
    before: Listener,
    after: Listener,
    listeners: Listeners,
    listeners2: Listeners,
    waker: Waker,
    r: Received,
)
    requires
        exists|it: &mut Listener, all: &mut Listeners|
            *it == before && *final(it) == after && *all == listeners && *final(all) == listeners2
                && #[trigger] call_ensures(Listener::poll_recv, (it, all, &waker, None), r),
        listeners.slots().contains_key(before.slot()),
    ensures
        r is Ready <==> before.seen() != listeners.count(),
        !(r is Ready) ==> listeners2.slots() == listeners.slots(),
        r matches Received::Pending { retired } ==> retired is None
            && (listeners.slots()[before.slot()] matches
            Some(left) && woken_task(left) == woken_task(waker)),
        after.seen() == listeners.count() && after.slot() == before.slot() && listeners2.count()
            == listeners.count(),
{
}

} // verus!
