//! The deadline heap of the event loop.

use vstd::prelude::*;

use slab::Slab;
use std::task::Waker;

use crate::clock::{Duration, Instant};
use crate::outside::{same_task, woken_task};

verus! {

/// Stable identifier for a timer. The generation prevents a stale cancellation
/// from removing a newer timer that reused the same slot.
#[derive(Debug, Clone, Copy, PartialEq, Eq, Hash, Structural)]
pub struct TimerHandle {
    slab_index: usize,
    generation: u64,
}

/// One armed timer, with its place in the heap.
pub struct TimerEntry {
    pub deadline: Instant,
    pub waker: Waker,
    pub generation: u64,
    pub heap_index: usize,
}

/// What a live handle stands for.
pub struct Registration {
    pub deadline: Instant,
    pub waker: Waker,
}

/// Indexed four-ary min heap. Four children per node reduce heap depth and keep
/// the nodes inspected during sift operations close together in cache.
pub struct DeadlineHeap {
    entries: Slab<TimerEntry>,
    heap: Vec<usize>,
    next_generation: u64,
}

/// The entries that a slab holds, by key.
pub uninterp spec fn timer_entries(slab: Slab<TimerEntry>) -> Map<usize, TimerEntry>;

/// `slab::Slab::new`: a slab that holds nothing.
#[verifier::external_body]
fn slab_new() -> (r: Slab<TimerEntry>)
    ensures
        timer_entries(r).dom() == Set::<usize>::empty(),
{
    Slab::new()
}

/// `slab::Slab::insert`: stores the value under a key that was free and returns
/// the key; every other entry stays.
#[verifier::external_body]
fn slab_insert(slab: &mut Slab<TimerEntry>, entry: TimerEntry) -> (key: usize)
    ensures
        !timer_entries(*old(slab)).contains_key(key),
        timer_entries(*final(slab)) == timer_entries(*old(slab)).insert(key, entry),
{
    slab.insert(entry)
}

/// `slab::Slab::get`: the value under the key, or `None` where the key is free.
#[verifier::external_body]
fn slab_get(slab: &Slab<TimerEntry>, key: usize) -> (r: Option<&TimerEntry>)
    ensures
        r is Some <==> timer_entries(*slab).contains_key(key),
        r matches Some(entry) ==> *entry == timer_entries(*slab)[key],
{
    slab.get(key)
}

/// `slab::Slab::get_mut`: the value under the key, to be changed in place, or
/// `None` where the key is free; every other entry stays.
#[verifier::external_body]
fn slab_get_mut(slab: &mut Slab<TimerEntry>, key: usize) -> (r: Option<&mut TimerEntry>)
    ensures
        r is Some <==> timer_entries(*old(slab)).contains_key(key),
        r matches Some(entry) ==> *entry == timer_entries(*old(slab))[key] && timer_entries(
            *final(slab),
        ) == timer_entries(*old(slab)).insert(key, *final(entry)),
        r is None ==> timer_entries(*final(slab)) == timer_entries(*old(slab)),
{
    slab.get_mut(key)
}

/// `slab::Slab::remove`: takes the value under an occupied key out and frees the
/// key; every other entry stays.
#[verifier::external_body]
fn slab_remove(slab: &mut Slab<TimerEntry>, key: usize) -> (entry: TimerEntry)
    requires
        timer_entries(*old(slab)).contains_key(key),
    ensures
        entry == timer_entries(*old(slab))[key],
        timer_entries(*final(slab)) == timer_entries(*old(slab)).remove(key),
{
    slab.remove(key)
}

/// The generation that follows `generation`; zero is never given out.
pub open spec fn following_generation(generation: u64) -> u64 {
    if generation == u64::MAX {
        1
    } else {
        (generation + 1) as u64
    }
}

/// Whether a timer of the first deadline and generation fires no later than one
/// of the second.
pub open spec fn no_later(deadline: int, generation: u64, deadline2: int, generation2: u64) -> bool {
    deadline < deadline2 || (deadline == deadline2 && generation <= generation2)
}

spec fn entry_le(a: TimerEntry, b: TimerEntry) -> bool {
    no_later(a.deadline@, a.generation, b.deadline@, b.generation)
}

/// Heap slots and entries point at each other.
spec fn linked(entries: Map<usize, TimerEntry>, heap: Seq<usize>) -> bool {
    &&& forall|i: int|
        0 <= i < heap.len() ==> entries.contains_key(#[trigger] heap[i])
            && entries[heap[i]].heap_index == i
    &&& forall|k: usize| #[trigger]
        entries.contains_key(k) ==> entries[k].heap_index < heap.len()
            && heap[entries[k].heap_index as int] == k
}

/// The entry at heap slot `i` is no later than the one at slot `j`.
spec fn slot_le(entries: Map<usize, TimerEntry>, heap: Seq<usize>, i: int, j: int) -> bool {
    entry_le(entries[heap[i]], entries[heap[j]])
}

spec fn parent_of(i: int) -> int {
    (i - 1) / 4
}

/// Every slot but those in `except` (a slot, with the slots below it where
/// `below`) is no earlier than its parent.
spec fn ordered_but(
    entries: Map<usize, TimerEntry>,
    heap: Seq<usize>,
    except: int,
    below: bool,
) -> bool {
    forall|i: int|
        #![trigger heap[i]]
        0 < i < heap.len() && (if below {
            parent_of(i) != except
        } else {
            i != except
        }) ==> slot_le(entries, heap, parent_of(i), i)
}

/// The slots below `at` are no earlier than the parent of `at`.
spec fn bridged(entries: Map<usize, TimerEntry>, heap: Seq<usize>, at: int) -> bool {
    at > 0 ==> forall|i: int|
        #![trigger heap[i]]
        0 < i < heap.len() && parent_of(i) == at ==> slot_le(entries, heap, parent_of(at), i)
}

/// The two maps differ at most in the heap places of their entries.
spec fn same_timers(a: Map<usize, TimerEntry>, b: Map<usize, TimerEntry>) -> bool {
    &&& a.dom() == b.dom()
    &&& forall|k: usize| #[trigger]
        a.contains_key(k) ==> a[k].deadline == b[k].deadline && a[k].waker == b[k].waker
            && a[k].generation == b[k].generation
}

spec fn live_of(entries: Map<usize, TimerEntry>) -> Map<TimerHandle, Registration> {
    Map::new(
        |h: TimerHandle|
            entries.contains_key(h.slab_index) && entries[h.slab_index].generation == h.generation,
        |h: TimerHandle|
            Registration {
                deadline: entries[h.slab_index].deadline,
                waker: entries[h.slab_index].waker,
            },
    )
}

proof fn lemma_same_timers_live(a: Map<usize, TimerEntry>, b: Map<usize, TimerEntry>)
    requires
        same_timers(a, b),
    ensures
        live_of(a) == live_of(b),
{
    assert forall|h: TimerHandle| #[trigger] live_of(a).contains_key(h) implies live_of(
        b,
    ).contains_key(h) && live_of(a)[h] == live_of(b)[h] by {
        assert(a.contains_key(h.slab_index));
        assert(b.dom().contains(h.slab_index));
    }
    assert forall|h: TimerHandle| #[trigger] live_of(b).contains_key(h) implies live_of(
        a,
    ).contains_key(h) by {
        assert(a.dom().contains(h.slab_index));
    }
    assert(live_of(a) =~= live_of(b));
}

proof fn lemma_root_is_first(entries: Map<usize, TimerEntry>, heap: Seq<usize>, i: int)
    requires
        0 <= i < heap.len(),
        ordered_but(entries, heap, -1, false),
    ensures
        slot_le(entries, heap, 0, i),
    decreases i,
{
    if i > 0 {
        lemma_root_is_first(entries, heap, parent_of(i));
        assert(heap[i] == heap[i]);
    }
}

impl DeadlineHeap {
    spec fn map(self) -> Map<usize, TimerEntry> {
        timer_entries(self.entries)
    }

    /// The timers that are armed, each under its handle.
    pub closed spec fn live(self) -> Map<TimerHandle, Registration> {
        live_of(self.map())
    }

    /// The generation given out last.
    pub closed spec fn generation(self) -> u64 {
        self.next_generation
    }

    /// The slots of the heap, from the root down.
    pub closed spec fn layout(self) -> Seq<usize> {
        self.heap@
    }

    /// Heap and entries agree, and no timer stands above an earlier one.
    pub closed spec fn wf(self) -> bool {
        &&& linked(self.map(), self.heap@)
        &&& ordered_but(self.map(), self.heap@, -1, false)
    }

    pub fn new() -> (r: Self)
        ensures
            r.wf(),
            r.live() == Map::<TimerHandle, Registration>::empty(),
            r.generation() == 0,
    {
        let r = DeadlineHeap { entries: slab_new(), heap: Vec::new(), next_generation: 0 };
        assert(r.live() =~= Map::<TimerHandle, Registration>::empty());
        r
    }

    fn less(&self, left: usize, right: usize) -> (r: bool)
        requires
            linked(self.map(), self.heap@),
            left < self.heap@.len(),
            right < self.heap@.len(),
        ensures
            r == !slot_le(self.map(), self.heap@, right as int, left as int),
    {
        let left_key: usize = self.heap[left];
        let right_key: usize = self.heap[right];
        match (slab_get(&self.entries, left_key), slab_get(&self.entries, right_key)) {
            (Some(l), Some(r)) => {
                l.deadline.is_before(r.deadline) || (!r.deadline.is_before(l.deadline)
                    && l.generation < r.generation)
            },
            _ => false,
        }
    }

    fn swap_nodes(&mut self, left: usize, right: usize)
        requires
            linked(old(self).map(), old(self).heap@),
            left < old(self).heap@.len(),
            right < old(self).heap@.len(),
        ensures
            linked(final(self).map(), final(self).heap@),
            same_timers(old(self).map(), final(self).map()),
            final(self).heap@ == old(self).heap@.update(
                left as int,
                old(self).heap@[right as int],
            ).update(right as int, old(self).heap@[left as int]),
            final(self).next_generation == old(self).next_generation,
    {
        let left_key: usize = self.heap[left];
        let right_key: usize = self.heap[right];
        self.heap.set(left, right_key);
        self.heap.set(right, left_key);
        if let Some(entry) = slab_get_mut(&mut self.entries, right_key) {
            entry.heap_index = left;
        }
        if let Some(entry) = slab_get_mut(&mut self.entries, left_key) {
            entry.heap_index = right;
        }
        proof {
            let before = timer_entries(old(self).entries);
            let after = timer_entries(self.entries);
            assert(before.contains_key(left_key) && before.contains_key(right_key));
            assert(after.dom() =~= before.dom());
            assert(left_key == right_key ==> left == right);
        }
    }

    /// Move the timer at `start` towards the root until its parent is no later.
    fn sift_up(&mut self, start: usize)
        requires
            start < old(self).heap@.len(),
            linked(old(self).map(), old(self).heap@),
            ordered_but(old(self).map(), old(self).heap@, start as int, false),
            bridged(old(self).map(), old(self).heap@, start as int),
        ensures
            final(self).wf(),
            same_timers(old(self).map(), final(self).map()),
            final(self).heap@.len() == old(self).heap@.len(),
            final(self).next_generation == old(self).next_generation,
    {
        let mut index: usize = start;
        while index != 0
            invariant
                index < self.heap@.len(),
                linked(self.map(), self.heap@),
                ordered_but(self.map(), self.heap@, index as int, false),
                bridged(self.map(), self.heap@, index as int),
                same_timers(old(self).map(), self.map()),
                self.heap@.len() == old(self).heap@.len(),
                self.next_generation == old(self).next_generation,
            ensures
                self.wf(),
            decreases index,
        {
            let parent: usize = (index - 1) / 4;
            if !self.less(index, parent) {
                assert(self.wf()) by {
                    assert(self.heap@[index as int] == self.heap@[index as int]);
                }
                break;
            }
            let ghost before = self.heap@;
            let ghost entries = self.map();
            self.swap_nodes(index, parent);
            proof {
                lemma_swap_up(entries, before, self.map(), self.heap@, index as int);
            }
            index = parent;
        }
    }

    /// Move the timer at `start` away from the root until no child is earlier.
    fn sift_down(&mut self, start: usize)
        requires
            start < old(self).heap@.len(),
            linked(old(self).map(), old(self).heap@),
            ordered_but(old(self).map(), old(self).heap@, start as int, true),
            bridged(old(self).map(), old(self).heap@, start as int),
        ensures
            final(self).wf(),
            same_timers(old(self).map(), final(self).map()),
            final(self).heap@.len() == old(self).heap@.len(),
            final(self).next_generation == old(self).next_generation,
    {
        let mut index: usize = start;
        loop
            invariant
                index < self.heap@.len(),
                linked(self.map(), self.heap@),
                ordered_but(self.map(), self.heap@, index as int, true),
                bridged(self.map(), self.heap@, index as int),
                same_timers(old(self).map(), self.map()),
                self.heap@.len() == old(self).heap@.len(),
                self.next_generation == old(self).next_generation,
            decreases self.heap@.len() - index,
        {
            let len: usize = self.heap.len();
            // The first test keeps the second from overflowing.
            if index > (len - 1) / 4 || index * 4 + 1 >= len {
                assert(self.wf()) by {
                    lemma_childless(self.map(), self.heap@, index as int);
                }
                return;
            }
            let first_child: usize = index * 4 + 1;
            let end: usize = if len - first_child >= 4 {
                first_child + 4
            } else {
                len
            };
            let mut smallest: usize = first_child;
            let mut child: usize = first_child + 1;
            while child < end
                invariant
                    first_child < child <= end <= self.heap@.len(),
                    first_child <= smallest < child,
                    linked(self.map(), self.heap@),
                    forall|j: int|
                        #![trigger self.heap@[j]]
                        first_child <= j < child ==> slot_le(
                            self.map(),
                            self.heap@,
                            smallest as int,
                            j,
                        ),
                decreases end - child,
            {
                if self.less(child, smallest) {
                    assert(self.heap@[smallest as int] == self.heap@[smallest as int]);
                    smallest = child;
                }
                child += 1;
            }
            assert forall|j: int| #![trigger self.heap@[j]]
                0 < j < self.heap@.len() && parent_of(j) == index implies slot_le(
                self.map(),
                self.heap@,
                smallest as int,
                j,
            ) by {
                assert(first_child <= j < end);
            }
            if !self.less(smallest, index) {
                assert(self.wf()) by {
                    lemma_settled(self.map(), self.heap@, index as int, smallest as int);
                }
                return;
            }
            let ghost before = self.heap@;
            let ghost entries = self.map();
            self.swap_nodes(index, smallest);
            proof {
                lemma_swap_down(
                    entries,
                    before,
                    self.map(),
                    self.heap@,
                    index as int,
                    smallest as int,
                );
            }
            index = smallest;
        }
    }

    /// Arm a timer under a handle of the next generation.
    pub fn insert(&mut self, deadline: Instant, waker: Waker) -> (handle: TimerHandle)
        requires
            old(self).wf(),
        ensures
            final(self).wf(),
            !old(self).live().contains_key(handle),
            final(self).live() == old(self).live().insert(
                handle,
                (Registration { deadline, waker }),
            ),
            final(self).generation() == following_generation(old(self).generation()),
            handle.generation() == final(self).generation(),
    {
        self.next_generation = self.next_generation.wrapping_add(1);
        if self.next_generation == 0 {
            self.next_generation = 1;
        }
        let generation: u64 = self.next_generation;
        let heap_index: usize = self.heap.len();
        let slab_index: usize = slab_insert(
            &mut self.entries,
            TimerEntry { deadline, waker, generation, heap_index },
        );
        self.heap.push(slab_index);
        let handle = TimerHandle { slab_index, generation };
        let ghost grown = self.map();
        proof {
            let before = old(self).map();
            let slots = old(self).heap@;
            assert forall|i: int| #![trigger self.heap@[i]]
                0 < i < self.heap@.len() && i != heap_index implies slot_le(
                grown,
                self.heap@,
                parent_of(i),
                i,
            ) by {
                assert(before.contains_key(slots[i]));
                assert(before.contains_key(slots[parent_of(i)]));
                assert(slot_le(before, slots, parent_of(i), i));
            }
            assert(linked(grown, self.heap@)) by {
                assert forall|i: int| 0 <= i < self.heap@.len() implies grown.contains_key(
                    #[trigger] self.heap@[i],
                ) && grown[self.heap@[i]].heap_index == i by {
                    if i < slots.len() {
                        assert(before.contains_key(slots[i]));
                    }
                }
            }
        }
        self.sift_up(heap_index);
        proof {
            lemma_same_timers_live(grown, self.map());
            assert(self.live() =~= old(self).live().insert(
                handle,
                Registration { deadline, waker },
            ));
        }
        handle
    }

    /// The earliest deadline of an armed timer.
    pub fn deadline(&self) -> (r: Option<Instant>)
        requires
            self.wf(),
        ensures
            is_first_deadline(self.live(), r),
    {
        if self.heap.len() == 0 {
            assert(self.live() =~= Map::<TimerHandle, Registration>::empty());
            return None;
        }
        let key: usize = self.heap[0];
        match slab_get(&self.entries, key) {
            Some(entry) => {
                proof {
                    self.lemma_first(key);
                }
                Some(entry.deadline)
            },
            None => None,
        }
    }

    /// The timer at the root is live, and no live timer comes before it.
    proof fn lemma_first(self, key: usize)
        requires
            self.wf(),
            self.heap@.len() > 0,
            key == self.heap@[0],
        ensures
            self.map().contains_key(key),
            self.live().contains_key(
                TimerHandle { slab_index: key, generation: self.map()[key].generation },
            ),
            forall|h: TimerHandle| #[trigger]
                self.live().contains_key(h) ==> no_later(
                    self.map()[key].deadline@,
                    self.map()[key].generation,
                    self.live()[h].deadline@,
                    h.generation,
                ),
    {
        assert forall|h: TimerHandle| #[trigger] self.live().contains_key(h) implies no_later(
            self.map()[key].deadline@,
            self.map()[key].generation,
            self.live()[h].deadline@,
            h.generation,
        ) by {
            let i = self.map()[h.slab_index].heap_index as int;
            assert(self.heap@[i] == h.slab_index);
            lemma_root_is_first(self.map(), self.heap@, i);
        }
    }

    /// Disarm the timer of a live handle and hand its waiter back.
    pub fn remove(&mut self, handle: TimerHandle) -> (r: Option<Waker>)
        requires
            old(self).wf(),
        ensures
            final(self).wf(),
            r == if old(self).live().contains_key(handle) {
                Some(old(self).live()[handle].waker)
            } else {
                None
            },
            final(self).live() == old(self).live().remove(handle),
            final(self).generation() == old(self).generation(),
            r is None ==> final(self).layout() == old(self).layout(),
            r is Some ==> final(self).layout().len() + 1 == old(self).layout().len(),
    {
        let heap_index: usize = match slab_get(&self.entries, handle.slab_index) {
            Some(entry) => {
                if entry.generation != handle.generation {
                    assert(self.live().remove(handle) =~= self.live());
                    return None;
                }
                entry.heap_index
            },
            None => {
                assert(self.live().remove(handle) =~= self.live());
                return None;
            },
        };
        let ghost entries0 = self.map();
        let ghost heap0 = self.heap@;
        let last: usize = self.heap.len() - 1;
        if heap_index != last {
            self.swap_nodes(heap_index, last);
        }
        let ghost entries1 = self.map();
        let ghost heap1 = self.heap@;
        let _ = self.heap.pop();
        let entry = slab_remove(&mut self.entries, handle.slab_index);
        let ghost entries2 = self.map();
        let ghost heap2 = self.heap@;
        proof {
            assert(heap1[last as int] == handle.slab_index);
            assert(entries0.contains_key(handle.slab_index));
            assert(entries1.dom().contains(handle.slab_index));
            assert(entries1.contains_key(handle.slab_index));
            assert(heap1 =~= heap0.update(heap_index as int, heap0[last as int]).update(
                last as int,
                heap0[heap_index as int],
            ));
            lemma_cut(entries0, heap0, entries1, heap1, entries2, heap2, heap_index as int);
            assert(live_of(entries2) =~= live_of(entries0).remove(handle)) by {
                lemma_same_timers_live(entries0, entries1);
                assert(live_of(entries2) =~= live_of(entries1).remove(handle));
            }
        }
        if heap_index < self.heap.len() {
            if heap_index > 0 && self.less(heap_index, (heap_index - 1) / 4) {
                proof {
                    lemma_cut_up(entries2, heap2, heap_index as int);
                }
                self.sift_up(heap_index);
            } else {
                assert(self.heap@[heap_index as int] == self.heap@[heap_index as int]);
                self.sift_down(heap_index);
            }
            proof {
                lemma_same_timers_live(entries2, self.map());
            }
        } else {
            assert(self.wf());
        }
        Some(entry.waker)
    }

    /// Disarm every timer that is due at `now` and append their waiters to
    /// `output`, in the order of their deadlines.
    pub fn pop_expired(&mut self, now: Instant, output: &mut Vec<Waker>)
        requires
            old(self).wf(),
        ensures
            final(self).wf(),
            final(self).generation() == old(self).generation(),
            final(self).live() == still_armed(old(self).live(), now@),
            fired(old(self).live(), now@, old(output)@, final(output)@),
    {
        let ghost mut order = Seq::<TimerHandle>::empty();
        assert(output@ =~= old(output)@ + waiters(old(self).live(), order));
        assert(self.live() =~= old(self).live().remove_keys(order.to_set()));
        loop
            invariant
                self.wf(),
                self.generation() == old(self).generation(),
                self.live() == old(self).live().remove_keys(order.to_set()),
                output@ == old(output)@ + waiters(old(self).live(), order),
                fired_so_far(old(self).live(), now@, order),
            ensures
                forall|h: TimerHandle| #[trigger]
                    self.live().contains_key(h) ==> self.live()[h].deadline@ > now@,
            decreases self.layout().len(),
        {
            match self.deadline() {
                Some(deadline) => {
                    if !deadline.is_due(now) {
                        break;
                    }
                },
                None => {
                    break;
                },
            }
            let slab_index: usize = self.heap[0];
            let generation: u64 = match slab_get(&self.entries, slab_index) {
                Some(entry) => entry.generation,
                None => 0,
            };
            let handle = TimerHandle { slab_index, generation };
            let ghost before = self.live();
            proof {
                self.lemma_first(slab_index);
                assert(before.contains_key(handle));
                assert(!order.to_set().contains(handle));
                assert forall|h: TimerHandle| #[trigger]
                    old(self).live().contains_key(h) && !order.contains(h) implies no_later(
                    old(self).live()[handle].deadline@,
                    handle.generation,
                    old(self).live()[h].deadline@,
                    h.generation,
                ) by {
                    assert(!order.to_set().contains(h));
                    assert(before.contains_key(h));
                }
                lemma_fires_next(old(self).live(), now@, order, handle);
            }
            if let Some(waker) = self.remove(handle) {
                output.push(waker);
            }
            proof {
                let longer = order.push(handle);
                assert(old(self).live().contains_key(handle));
                lemma_push_contains(order, handle);
                assert(longer.to_set() =~= order.to_set().insert(handle));
                assert(self.live() =~= old(self).live().remove_keys(longer.to_set()));
                assert(waiters(old(self).live(), longer) =~= waiters(old(self).live(), order).push(
                    old(self).live()[handle].waker,
                ));
                assert(output@ =~= old(output)@ + waiters(old(self).live(), longer));
                order = longer;
            }
        }
        proof {
            let live = old(self).live();
            assert forall|h: TimerHandle| #[trigger] order.contains(h) <==> live.contains_key(h)
                && live[h].deadline@ <= now@ by {
                if live.contains_key(h) && live[h].deadline@ <= now@ && !order.contains(h) {
                    assert(!order.to_set().contains(h));
                    assert(self.live().contains_key(h));
                }
            }
            assert(firing_order(live, now@, order));
            assert(self.live() =~= still_armed(live, now@));
        }
    }

    /// Give a live timer another waiter, at the same place of the heap. The
    /// waiter that is not kept comes back: the old one, or the new one where the
    /// handle is stale.
    pub fn replace_waker(&mut self, handle: TimerHandle, incoming: Waker) -> (r: Result<
        Waker,
        Waker,
    >)
        requires
            old(self).wf(),
        ensures
            final(self).wf(),
            final(self).generation() == old(self).generation(),
            final(self).layout() == old(self).layout(),
            old(self).live().contains_key(handle) ==> {
                &&& r == Ok::<Waker, Waker>(old(self).live()[handle].waker)
                &&& final(self).live() == old(self).live().insert(
                    handle,
                    (Registration {
                        deadline: old(self).live()[handle].deadline,
                        waker: incoming,
                    }),
                )
            },
            !old(self).live().contains_key(handle) ==> {
                &&& r == Err::<Waker, Waker>(incoming)
                &&& final(self).live() == old(self).live()
            },
    {
        let ghost before = self.map();
        let live = match slab_get(&self.entries, handle.slab_index) {
            Some(entry) => entry.generation == handle.generation,
            None => false,
        };
        if !live {
            return Err(incoming);
        }
        let mut discarded = incoming;
        if let Some(entry) = slab_get_mut(&mut self.entries, handle.slab_index) {
            core::mem::swap(&mut entry.waker, &mut discarded);
        }
        proof {
            let after = self.map();
            assert(after.dom() =~= before.dom());
            assert(self.live() =~= old(self).live().insert(
                handle,
                Registration { deadline: old(self).live()[handle].deadline, waker: incoming },
            ));
        }
        Ok(discarded)
    }

    /// The waiter of a live timer.
    fn waker(&self, handle: TimerHandle) -> (r: Option<&Waker>)
        requires
            self.wf(),
        ensures
            r is Some <==> self.live().contains_key(handle),
            r matches Some(waker) ==> *waker == self.live()[handle].waker,
    {
        match slab_get(&self.entries, handle.slab_index) {
            Some(entry) => {
                if entry.generation == handle.generation {
                    Some(&entry.waker)
                } else {
                    None
                }
            },
            None => None,
        }
    }
}

/// The live timers that are not due at `now`.
pub open spec fn still_armed(
    live: Map<TimerHandle, Registration>,
    now: int,
) -> Map<TimerHandle, Registration> {
    live.restrict(Set::new(|h: TimerHandle| live.contains_key(h) && live[h].deadline@ > now))
}

/// The waiters of the timers in `order`.
pub open spec fn waiters(
    live: Map<TimerHandle, Registration>,
    order: Seq<TimerHandle>,
) -> Seq<Waker> {
    order.map_values(|h: TimerHandle| live[h].waker)
}

/// `order` holds each timer that is due at `now` once, the earlier deadline
/// first, and of one deadline the lower generation first.
pub open spec fn firing_order(
    live: Map<TimerHandle, Registration>,
    now: int,
    order: Seq<TimerHandle>,
) -> bool {
    &&& order.no_duplicates()
    &&& forall|h: TimerHandle| #[trigger]
        order.contains(h) <==> live.contains_key(h) && live[h].deadline@ <= now
    &&& forall|i: int, j: int|
        0 <= i < j < order.len() ==> no_later(
            live[#[trigger] order[i]].deadline@,
            order[i].generation(),
            live[#[trigger] order[j]].deadline@,
            order[j].generation(),
        )
}

/// `output` is `earlier` and the waiters of all timers that are due at `now`, in
/// their firing order.
pub open spec fn fired(
    live: Map<TimerHandle, Registration>,
    now: int,
    earlier: Seq<Waker>,
    output: Seq<Waker>,
) -> bool {
    exists|order: Seq<TimerHandle>| #[trigger]
        firing_order(live, now, order) && output == earlier + waiters(live, order)
}

/// `order` is a prefix of a firing order.
spec fn fired_so_far(
    live: Map<TimerHandle, Registration>,
    now: int,
    order: Seq<TimerHandle>,
) -> bool {
    &&& order.no_duplicates()
    &&& forall|h: TimerHandle| #[trigger]
        order.contains(h) ==> live.contains_key(h) && live[h].deadline@ <= now
    &&& forall|i: int, j: int|
        0 <= i < j < order.len() ==> no_later(
            live[#[trigger] order[i]].deadline@,
            order[i].generation,
            live[#[trigger] order[j]].deadline@,
            order[j].generation,
        )
    &&& forall|i: int, h: TimerHandle|
        0 <= i < order.len() && live.contains_key(h) && !order.contains(h) ==> no_later(
            live[#[trigger] order[i]].deadline@,
            order[i].generation,
            (#[trigger] live[h]).deadline@,
            h.generation,
        )
}

proof fn lemma_push_contains(order: Seq<TimerHandle>, next: TimerHandle)
    ensures
        forall|h: TimerHandle| #[trigger]
            order.push(next).contains(h) <==> order.contains(h) || h == next,
{
    let longer = order.push(next);
    assert forall|h: TimerHandle| #[trigger] longer.contains(h) <==> order.contains(h) || h
        == next by {
        if order.contains(h) {
            let i = choose|i: int| 0 <= i < order.len() && order[i] == h;
            assert(longer[i] == h);
        }
        assert(longer[order.len() as int] == next);
    }
}

proof fn lemma_fires_next(
    live: Map<TimerHandle, Registration>,
    now: int,
    order: Seq<TimerHandle>,
    next: TimerHandle,
)
    requires
        fired_so_far(live, now, order),
        live.contains_key(next),
        !order.contains(next),
        live[next].deadline@ <= now,
        forall|h: TimerHandle| #[trigger]
            live.contains_key(h) && !order.contains(h) ==> no_later(
                live[next].deadline@,
                next.generation,
                live[h].deadline@,
                h.generation,
            ),
    ensures
        fired_so_far(live, now, order.push(next)),
{
    let longer = order.push(next);
    lemma_push_contains(order, next);
    assert forall|i: int, j: int| 0 <= i < j < longer.len() implies no_later(
        live[#[trigger] longer[i]].deadline@,
        longer[i].generation,
        live[#[trigger] longer[j]].deadline@,
        longer[j].generation,
    ) by {
        if j == order.len() {
            assert(order[i] == longer[i]);
            assert(live[next] == live[next]);
        }
    }
    assert forall|i: int, h: TimerHandle|
        0 <= i < longer.len() && live.contains_key(h) && !longer.contains(h) implies no_later(
        live[#[trigger] longer[i]].deadline@,
        longer[i].generation,
        (#[trigger] live[h]).deadline@,
        h.generation,
    ) by {
        if i < order.len() {
            assert(order[i] == longer[i]);
        }
    }
}

proof fn lemma_swap_up(
    entries: Map<usize, TimerEntry>,
    heap: Seq<usize>,
    entries2: Map<usize, TimerEntry>,
    heap2: Seq<usize>,
    at: int,
)
    requires
        0 < at < heap.len(),
        linked(entries, heap),
        linked(entries2, heap2),
        same_timers(entries, entries2),
        heap2 == heap.update(at, heap[parent_of(at)]).update(parent_of(at), heap[at]),
        ordered_but(entries, heap, at, false),
        bridged(entries, heap, at),
        !slot_le(entries, heap, parent_of(at), at),
    ensures
        ordered_but(entries2, heap2, parent_of(at), false),
        bridged(entries2, heap2, parent_of(at)),
{
    let up = parent_of(at);
    assert forall|i: int| 0 <= i < heap.len() implies #[trigger] entries.contains_key(heap2[i]) by {
        assert(entries2.contains_key(heap2[i]));
        assert(entries.dom().contains(heap2[i]));
    }
    assert forall|i: int| #![trigger heap2[i]] 0 < i < heap2.len() && i != up implies slot_le(
        entries2,
        heap2,
        parent_of(i),
        i,
    ) by {
        assert(heap[i] == heap[i]);
        assert(heap[parent_of(i)] == heap[parent_of(i)]);
        assert(heap[at] == heap[at]);
        assert(heap[up] == heap[up]);
        assert(entries.contains_key(heap2[i]) && entries.contains_key(heap2[parent_of(i)]));
        assert(parent_of(i) == up ==> i == at || slot_le(entries, heap, up, i));
    }
    if up > 0 {
        assert forall|i: int| #![trigger heap2[i]] 0 < i < heap2.len() && parent_of(i)
            == up implies slot_le(
            entries2,
            heap2,
            parent_of(up),
            i,
        ) by {
            assert(heap[i] == heap[i]);
            assert(heap[up] == heap[up]);
            assert(entries.contains_key(heap2[i]) && entries.contains_key(heap2[parent_of(up)]));
            assert(slot_le(entries, heap, parent_of(up), up));
        }
    }
}

proof fn lemma_childless(entries: Map<usize, TimerEntry>, heap: Seq<usize>, at: int)
    requires
        0 <= at,
        at * 4 + 1 >= heap.len(),
        ordered_but(entries, heap, at, true),
    ensures
        ordered_but(entries, heap, -1, false),
{
    assert forall|i: int| #![trigger heap[i]] 0 < i < heap.len() implies slot_le(
        entries,
        heap,
        parent_of(i),
        i,
    ) by {
        assert(parent_of(i) != at);
    }
}

proof fn lemma_settled(entries: Map<usize, TimerEntry>, heap: Seq<usize>, at: int, child: int)
    requires
        0 <= at < heap.len(),
        ordered_but(entries, heap, at, true),
        slot_le(entries, heap, at, child),
        forall|j: int|
            #![trigger heap[j]]
            0 < j < heap.len() && parent_of(j) == at ==> slot_le(entries, heap, child, j),
    ensures
        ordered_but(entries, heap, -1, false),
{
}

proof fn lemma_swap_down(
    entries: Map<usize, TimerEntry>,
    heap: Seq<usize>,
    entries2: Map<usize, TimerEntry>,
    heap2: Seq<usize>,
    at: int,
    child: int,
)
    requires
        0 <= at < heap.len(),
        0 < child < heap.len(),
        parent_of(child) == at,
        linked(entries, heap),
        linked(entries2, heap2),
        same_timers(entries, entries2),
        heap2 == heap.update(at, heap[child]).update(child, heap[at]),
        ordered_but(entries, heap, at, true),
        bridged(entries, heap, at),
        !slot_le(entries, heap, at, child),
        forall|j: int|
            #![trigger heap[j]]
            0 < j < heap.len() && parent_of(j) == at ==> slot_le(entries, heap, child, j),
    ensures
        ordered_but(entries2, heap2, child, true),
        bridged(entries2, heap2, child),
{
    assert forall|i: int| 0 <= i < heap.len() implies #[trigger] entries.contains_key(heap2[i]) by {
        assert(entries2.contains_key(heap2[i]));
        assert(entries.dom().contains(heap2[i]));
    }
    assert forall|i: int| #![trigger heap2[i]]
        0 < i < heap2.len() && parent_of(i) != child implies slot_le(
        entries2,
        heap2,
        parent_of(i),
        i,
    ) by {
        assert(heap[i] == heap[i]);
        assert(heap[at] == heap[at]);
        assert(heap[child] == heap[child]);
        assert(entries.contains_key(heap2[i]) && entries.contains_key(heap2[parent_of(i)]));
        if i == at {
            assert(slot_le(entries, heap, parent_of(at), child));
        }
    }
    assert forall|i: int| #![trigger heap2[i]]
        0 < i < heap2.len() && parent_of(i) == child implies slot_le(
        entries2,
        heap2,
        parent_of(child),
        i,
    ) by {
        assert(heap[i] == heap[i]);
        assert(heap[child] == heap[child]);
        assert(entries.contains_key(heap2[i]) && entries.contains_key(heap2[at]));
        assert(slot_le(entries, heap, child, i));
    }
}

/// What is left of a heap once its slot `at` was swapped with the last and the
/// last was cut off.
proof fn lemma_cut(
    entries0: Map<usize, TimerEntry>,
    heap0: Seq<usize>,
    entries1: Map<usize, TimerEntry>,
    heap1: Seq<usize>,
    entries2: Map<usize, TimerEntry>,
    heap2: Seq<usize>,
    at: int,
)
    requires
        0 <= at < heap0.len(),
        linked(entries0, heap0),
        ordered_but(entries0, heap0, -1, false),
        linked(entries1, heap1),
        same_timers(entries0, entries1),
        heap1 == heap0.update(at, heap0[heap0.len() - 1]).update(heap0.len() - 1, heap0[at]),
        heap2 == heap1.subrange(0, heap1.len() - 1),
        entries2 == entries1.remove(heap0[at]),
    ensures
        linked(entries2, heap2),
        forall|i: int|
            #![trigger heap2[i]]
            0 < i < heap2.len() && i != at && parent_of(i) != at ==> slot_le(
                entries2,
                heap2,
                parent_of(i),
                i,
            ),
        bridged(entries2, heap2, at),
        at == heap2.len() ==> ordered_but(entries2, heap2, -1, false),
{
    let last = heap0.len() - 1;
    assert forall|i: int| 0 <= i < heap2.len() implies entries2.contains_key(#[trigger] heap2[i])
        && entries2[heap2[i]].heap_index == i by {
        assert(entries1.contains_key(heap1[i]));
        assert(heap1[last] == heap0[at]);
        assert(entries1[heap1[last]].heap_index == last);
    }
    assert forall|k: usize| #[trigger] entries2.contains_key(k) implies entries2[k].heap_index
        < heap2.len() && heap2[entries2[k].heap_index as int] == k by {
        assert(entries1.contains_key(k));
    }
    assert forall|i: int| 0 <= i < heap2.len() implies #[trigger] entries0.contains_key(
        heap2[i],
    ) by {
        assert(entries1.contains_key(heap1[i]));
        assert(entries0.dom().contains(heap1[i]));
    }
    assert forall|i: int| #![trigger heap2[i]]
        0 < i < heap2.len() && i != at && parent_of(i) != at implies slot_le(
        entries2,
        heap2,
        parent_of(i),
        i,
    ) by {
        assert(heap0[i] == heap2[i]);
        assert(heap0[parent_of(i)] == heap2[parent_of(i)]);
        assert(entries0.contains_key(heap2[i]) && entries0.contains_key(heap2[parent_of(i)]));
        assert(slot_le(entries0, heap0, parent_of(i), i));
    }
    if at > 0 {
        assert forall|i: int| #![trigger heap2[i]]
            0 < i < heap2.len() && parent_of(i) == at implies slot_le(
            entries2,
            heap2,
            parent_of(at),
            i,
        ) by {
            assert(heap0[i] == heap2[i]);
            assert(heap0[parent_of(at)] == heap2[parent_of(at)]);
            assert(heap0[at] == heap0[at]);
            assert(entries0.contains_key(heap2[i]) && entries0.contains_key(heap2[parent_of(at)]));
            assert(slot_le(entries0, heap0, parent_of(at), at));
            assert(slot_le(entries0, heap0, at, i));
        }
    }
    if at == heap2.len() {
        assert forall|i: int| #![trigger heap2[i]] 0 < i < heap2.len() implies slot_le(
            entries2,
            heap2,
            parent_of(i),
            i,
        ) by {
            assert(parent_of(i) != at);
        }
    }
}

/// Where the timer that took the place of a removed one is earlier than its new
/// parent, it is no later than its new children.
proof fn lemma_cut_up(entries2: Map<usize, TimerEntry>, heap2: Seq<usize>, at: int)
    requires
        0 < at < heap2.len(),
        linked(entries2, heap2),
        bridged(entries2, heap2, at),
        !slot_le(entries2, heap2, parent_of(at), at),
        forall|i: int|
            #![trigger heap2[i]]
            0 < i < heap2.len() && i != at && parent_of(i) != at ==> slot_le(
                entries2,
                heap2,
                parent_of(i),
                i,
            ),
    ensures
        ordered_but(entries2, heap2, at, false),
{
    assert forall|i: int| #![trigger heap2[i]] 0 < i < heap2.len() && i != at implies slot_le(
        entries2,
        heap2,
        parent_of(i),
        i,
    ) by {
        if parent_of(i) == at {
            assert(slot_le(entries2, heap2, parent_of(at), i));
        }
    }
}

/// The timers of one event loop.
pub struct Timer {
    deadlines: DeadlineHeap,
}

impl Timer {
    /// The timers that are armed, each under its handle.
    pub closed spec fn live(self) -> Map<TimerHandle, Registration> {
        self.deadlines.live()
    }

    /// The generation given out last.
    pub closed spec fn generation(self) -> u64 {
        self.deadlines.generation()
    }

    /// The slots of the heap, from the root down.
    pub closed spec fn layout(self) -> Seq<usize> {
        self.deadlines.layout()
    }

    /// The heap below is well formed.
    pub closed spec fn wf(self) -> bool {
        self.deadlines.wf()
    }

    pub fn new() -> (r: Self)
        ensures
            r.wf(),
            r.live() == Map::<TimerHandle, Registration>::empty(),
            r.generation() == 0,
    {
        Timer { deadlines: DeadlineHeap::new() }
    }

    /// The slots of the heap, from the root down.
    pub fn heap(&self) -> (r: &Vec<usize>)
        ensures
            r@ == self.layout(),
    {
        &self.deadlines.heap
    }

    /// Arm a timer. A deadline that has been reached at `now` is not armed: the
    /// waiter comes back, to be woken at once.
    pub fn submit(&mut self, now: Instant, deadline: Instant, waker: Waker) -> (r: Result<
        TimerHandle,
        Waker,
    >)
        requires
            old(self).wf(),
        ensures
            final(self).wf(),
            deadline@ <= now@ ==> r == Err::<TimerHandle, Waker>(waker) && *final(self) == *old(
                self,
            ),
            deadline@ > now@ ==> {
                &&& r matches Ok(handle) && {
                    &&& !old(self).live().contains_key(handle)
                    &&& final(self).live() == old(self).live().insert(
                        handle,
                        (Registration { deadline, waker }),
                    )
                    &&& handle.generation() == final(self).generation()
                }
                &&& final(self).generation() == following_generation(old(self).generation())
            },
    {
        if deadline.is_due(now) {
            return Err(waker);
        }
        Ok(self.deadlines.insert(deadline, waker))
    }

    /// Disarm the timer of a live handle. Its waiter comes back, for the caller
    /// to drop once no borrow of the timers is held.
    pub fn cancel(&mut self, handle: TimerHandle) -> (r: Option<Waker>)
        requires
            old(self).wf(),
        ensures
            final(self).wf(),
            r == if old(self).live().contains_key(handle) {
                Some(old(self).live()[handle].waker)
            } else {
                None
            },
            final(self).live() == old(self).live().remove(handle),
            final(self).generation() == old(self).generation(),
            r is None ==> final(self).layout() == old(self).layout(),
            r is Some ==> final(self).layout().len() + 1 == old(self).layout().len(),
    {
        self.deadlines.remove(handle)
    }

    /// Replace a live registration's waiter without changing its heap position,
    /// unless it is known to wake the task that `waker` wakes. `replacement` is a
    /// clone of `waker`, to be made with no borrow of the timers held; where one is
    /// needed and missing, it is asked for.
    pub fn update_waker(
        &mut self,
        handle: TimerHandle,
        waker: &Waker,
        replacement: Option<Waker>,
    ) -> (r: WakerUpdate)
        requires
            old(self).wf(),
        ensures
            final(self).wf(),
            waker_refreshed(*old(self), *final(self), handle, *waker, replacement, r),
    {
        let same: bool = match self.deadlines.waker(handle) {
            Some(current) => current.will_wake(waker),
            None => false,
        };
        self.exchange_waker(handle, same, replacement)
    }

    /// Replace a live registration's waiter, given whether it is known to wake the
    /// same task: then it stays.
    pub fn exchange_waker(
        &mut self,
        handle: TimerHandle,
        same: bool,
        replacement: Option<Waker>,
    ) -> (r: WakerUpdate)
        requires
            old(self).wf(),
        ensures
            final(self).wf(),
            waker_updated(*old(self), *final(self), handle, same, replacement, r),
    {
        if self.deadlines.waker(handle).is_none() {
            return WakerUpdate::Stale { unused: replacement };
        }
        if same {
            return WakerUpdate::Kept { unused: replacement };
        }
        match replacement {
            Some(incoming) => match self.deadlines.replace_waker(handle, incoming) {
                Ok(replaced) => WakerUpdate::Replaced { replaced },
                Err(incoming) => WakerUpdate::Stale { unused: Some(incoming) },
            },
            None => WakerUpdate::NeedsWaker,
        }
    }

    /// Disarm every timer that is due at `now` and return their waiters, in the
    /// order of their deadlines.
    pub fn take_expired(&mut self, now: Instant) -> (expired: Vec<Waker>)
        requires
            old(self).wf(),
        ensures
            final(self).wf(),
            final(self).generation() == old(self).generation(),
            final(self).live() == still_armed(old(self).live(), now@),
            fired(old(self).live(), now@, Seq::empty(), expired@),
    {
        let mut expired: Vec<Waker> = Vec::new();
        self.deadlines.pop_expired(now, &mut expired);
        expired
    }

    /// The earliest deadline of an armed timer.
    pub fn deadline(&self) -> (r: Option<Instant>)
        requires
            self.wf(),
        ensures
            is_first_deadline(self.live(), r),
    {
        self.deadlines.deadline()
    }

    /// The exact time from `now` to the earliest deadline, none where it has
    /// passed.
    pub fn time_to_deadline(&self, now: Instant) -> (r: Option<Duration>)
        requires
            self.wf(),
        ensures
            is_time_to_deadline(self.live(), now@, r),
    {
        match self.deadlines.deadline() {
            Some(deadline) => {
                let wait = deadline.saturating_duration_since(now);
                assert(is_first_deadline(self.live(), Some(deadline)));
                Some(wait)
            },
            None => None,
        }
    }

    /// Spin the timers, in two steps. The spin begins by taking every timer that is
    /// due. Once their waiters have been woken, which may arm and cancel timers and
    /// take its time, the time to the next deadline is measured.
    pub fn spin_and_get_deadline(&mut self, event: SpinEvent) -> (r: SpinStep)
        requires
            old(self).wf(),
        ensures
            final(self).wf(),
            final(self).generation() == old(self).generation(),
            match event {
                SpinEvent::Begun { now } => {
                    &&& final(self).live() == still_armed(old(self).live(), now@)
                    &&& r matches SpinStep::Wake { expired, spin } && {
                        &&& fired(old(self).live(), now@, Seq::empty(), expired@)
                        &&& spin.woke() == (expired@.len() > 0)
                    }
                },
                SpinEvent::Woken { spin, now } => {
                    &&& *final(self) == *old(self)
                    &&& r matches SpinStep::Done { wait, woken_up } && {
                        &&& is_time_to_deadline(old(self).live(), now@, wait)
                        &&& woken_up == spin.woke()
                    }
                },
            },
    {
        match event {
            SpinEvent::Begun { now } => {
                let expired = self.take_expired(now);
                let woken_up: bool = expired.len() > 0;
                SpinStep::Wake { expired, spin: Spin { woken_up } }
            },
            SpinEvent::Woken { spin, now } => SpinStep::Done {
                wait: self.time_to_deadline(now),
                woken_up: spin.woken_up,
            },
        }
    }
}

/// What updating the waiter of a timer leads to. Waiters come back to be dropped
/// once no borrow of the timers is held.
pub enum WakerUpdate {
    /// The handle has expired, been cancelled, or been reused.
    Stale { unused: Option<Waker> },
    /// The waiter stays, since it wakes the same task.
    Kept { unused: Option<Waker> },
    /// The waiter was replaced.
    Replaced { replaced: Waker },
    /// Another waiter is needed: it is to be cloned, and the update made with it.
    NeedsWaker,
}

/// What updating a waiter does to the timers, and what comes back.
pub open spec fn waker_updated(
    before: Timer,
    after: Timer,
    handle: TimerHandle,
    same: bool,
    replacement: Option<Waker>,
    r: WakerUpdate,
) -> bool {
    &&& after.generation() == before.generation()
    &&& after.layout() == before.layout()
    &&& if !before.live().contains_key(handle) {
        r == (WakerUpdate::Stale { unused: replacement }) && after == before
    } else if same {
        r == (WakerUpdate::Kept { unused: replacement }) && after == before
    } else {
        match replacement {
            Some(waker) => {
                &&& r == (WakerUpdate::Replaced { replaced: before.live()[handle].waker })
                &&& after.live() == before.live().insert(
                    handle,
                    Registration { deadline: before.live()[handle].deadline, waker },
                )
            },
            None => r is NeedsWaker && after == before,
        }
    }
}

/// The waiter of a timer was updated, given an answer to whether it is known to
/// wake the task that `waker` wakes; it is so only where it does.
pub open spec fn waker_refreshed(
    before: Timer,
    after: Timer,
    handle: TimerHandle,
    waker: Waker,
    replacement: Option<Waker>,
    r: WakerUpdate,
) -> bool {
    exists|same: bool| #[trigger]
        waker_updated(before, after, handle, same, replacement, r) && (same ==> same_task(
            before.live()[handle].waker,
            waker,
        ))
}

/// A spin whose waiters are being woken.
pub struct Spin {
    woken_up: bool,
}

impl Spin {
    /// Whether any timer was due.
    pub closed spec fn woke(self) -> bool {
        self.woken_up
    }
}

/// What spinning the timers hears of.
pub enum SpinEvent {
    /// The spin begins, at `now`.
    Begun { now: Instant },
    /// The waiters of the spin have been woken, and it is `now`.
    Woken { spin: Spin, now: Instant },
}

/// What spinning the timers does next.
pub enum SpinStep {
    /// Wake these waiters, with no borrow of the timers held, and go on.
    Wake { expired: Vec<Waker>, spin: Spin },
    /// The time to the next deadline, where there is one, and whether any timer
    /// was due.
    Done { wait: Option<Duration>, woken_up: bool },
}

impl Default for Timer {
    fn default() -> (r: Self)
        ensures
            r.wf(),
            r.live() == Map::<TimerHandle, Registration>::empty(),
            r.generation() == 0,
    {
        Timer::new()
    }
}

/// `first` is the earliest deadline in `live`, or `None` where nothing is armed.
pub open spec fn is_first_deadline(
    live: Map<TimerHandle, Registration>,
    first: Option<Instant>,
) -> bool {
    match first {
        None => live == Map::<TimerHandle, Registration>::empty(),
        Some(deadline) => {
            &&& forall|h: TimerHandle| #[trigger]
                live.contains_key(h) ==> deadline@ <= live[h].deadline@
            &&& exists|h: TimerHandle| #[trigger]
                live.contains_key(h) && live[h].deadline == deadline
        },
    }
}

/// `wait` is the time from `now` to the earliest deadline in `live`.
pub open spec fn is_time_to_deadline(
    live: Map<TimerHandle, Registration>,
    now: int,
    wait: Option<Duration>,
) -> bool {
    match wait {
        None => is_first_deadline(live, None),
        Some(duration) => exists|deadline: Instant| #[trigger]
            is_first_deadline(live, Some(deadline)) && duration@ == if now <= deadline@ {
                deadline@ - now
            } else {
                0
            },
    }
}

/// Every live handle carries a generation that was given out, and no two live
/// handles carry the same. This holds until the generations have been used up.
pub open spec fn generations_issued(
    live: Map<TimerHandle, Registration>,
    generation: u64,
) -> bool {
    &&& forall|h: TimerHandle| #[trigger]
        live.contains_key(h) ==> 1 <= h.generation() <= generation
    &&& forall|h: TimerHandle, k: TimerHandle| #[trigger]
        live.contains_key(h) && #[trigger] live.contains_key(k) && h.generation()
            == k.generation() ==> h == k
}

/// Cancelling a timer that was just armed leaves exactly the timers of before.
pub proof fn cancel_undoes_submit(
    before: Timer,
    armed: Timer,
    after: Timer,
    handle: TimerHandle,
    registration: Registration,
)
    requires
        !before.live().contains_key(handle),
        armed.live() == before.live().insert(handle, registration),
        after.live() == armed.live().remove(handle),
    ensures
        after.live() == before.live(),
{
    assert(after.live() =~= before.live());
}

/// Arming a timer keeps the generations of live handles distinct and issued,
/// until the last generation has been given out.
pub proof fn submit_issues_a_fresh_generation(
    before: Timer,
    armed: Timer,
    handle: TimerHandle,
    registration: Registration,
)
    requires
        generations_issued(before.live(), before.generation()),
        before.generation() < u64::MAX,
        armed.live() == before.live().insert(handle, registration),
        armed.generation() == following_generation(before.generation()),
        handle.generation() == armed.generation(),
    ensures
        generations_issued(armed.live(), armed.generation()),
{
}

/// A handle that has been cancelled or has expired stays dead however its slot
/// is reused: arming another timer does not bring it back.
pub proof fn stale_handle_stays_stale(
    before: Timer,
    armed: Timer,
    stale: TimerHandle,
    handle: TimerHandle,
    registration: Registration,
)
    requires
        !before.live().contains_key(stale),
        stale.generation() <= before.generation() < u64::MAX,
        armed.live() == before.live().insert(handle, registration),
        armed.generation() == following_generation(before.generation()),
        handle.generation() == armed.generation(),
    ensures
        !armed.live().contains_key(stale),
        armed.live().remove(stale) == armed.live(),
        stale.generation() <= armed.generation(),
{
    assert(armed.live().remove(stale) =~= armed.live());
}

/// Once the expired timers are taken, none that is left is due, so the next
/// deadline lies ahead; and no timer that was not due is lost.
pub proof fn expiry_takes_exactly_the_due(before: Timer, after: Timer, now: Instant, h: TimerHandle)
    requires
        after.live() == still_armed(before.live(), now@),
    ensures
        after.live().contains_key(h) <==> before.live().contains_key(h)
            && before.live()[h].deadline@ > now@,
        after.live().contains_key(h) ==> after.live()[h] == before.live()[h],
        still_armed(after.live(), now@) == after.live(),
{
    assert(still_armed(after.live(), now@) =~= after.live());
}

/// While generations are distinct, the timers that are due fire in one order
/// only.
pub proof fn firing_order_is_unique(
    timer: Timer,
    now: Instant,
    a: Seq<TimerHandle>,
    b: Seq<TimerHandle>,
)
    requires
        generations_issued(timer.live(), timer.generation()),
        firing_order(timer.live(), now@, a),
        firing_order(timer.live(), now@, b),
    ensures
        a == b,
{
    let live = timer.live();
    assert(a.to_set() =~= b.to_set()) by {
        assert forall|h: TimerHandle| a.to_set().contains(h) <==> b.to_set().contains(h) by {
            assert(a.contains(h) <==> b.contains(h));
        }
    }
    a.unique_seq_to_set();
    b.unique_seq_to_set();
    assert forall|i: int| 0 <= i < a.len() implies a[i] == b[i] by {
        lemma_same_place(live, now@, a, b, i);
    }
    assert(a =~= b);
}

proof fn lemma_same_place(
    live: Map<TimerHandle, Registration>,
    now: int,
    a: Seq<TimerHandle>,
    b: Seq<TimerHandle>,
    i: int,
)
    requires
        firing_order(live, now, a),
        firing_order(live, now, b),
        a.len() == b.len(),
        0 <= i < a.len(),
        forall|h: TimerHandle, k: TimerHandle| #[trigger]
            live.contains_key(h) && #[trigger] live.contains_key(k) && h.generation()
                == k.generation() ==> h == k,
    ensures
        a[i] == b[i],
    decreases i,
{
    assert forall|j: int| 0 <= j < i implies a[j] == b[j] by {
        lemma_same_place(live, now, a, b, j);
    }
    let x = a[i];
    let y = b[i];
    assert(a.contains(x) && b.contains(y));
    assert(b.contains(x) && a.contains(y));
    let at = choose|j: int| 0 <= j < b.len() && b[j] == x;
    let bt = choose|j: int| 0 <= j < a.len() && a[j] == y;
    if x != y {
        assert(at > i) by {
            if at < i {
                assert(a[at] == x);
            }
        }
        assert(bt > i) by {
            if bt < i {
                assert(b[bt] == y);
            }
        }
        assert(no_later(live[b[i]].deadline@, b[i].generation(), live[b[at]].deadline@, b[at].generation()));
        assert(no_later(live[a[i]].deadline@, a[i].generation(), live[a[bt]].deadline@, a[bt].generation()));
        assert(live.contains_key(x) && live.contains_key(y));
    }
}

impl TimerHandle {
    /// The generation of the timer that the handle was given out for.
    pub closed spec fn generation(self) -> u64 {
        self.generation
    }

    /// The slot of the timer that the handle was given out for.
    pub closed spec fn slot(self) -> usize {
        self.slab_index
    }

    pub fn slab_index(&self) -> (r: usize)
        ensures
            r == self.slot(),
    {
        self.slab_index
    }
}

/// Expiry hands out the waiter of every timer that is due, each once and none else, the
/// earlier deadline first: as many come out as timers were disarmed. Every timer that is
/// not due stays armed as it was.
pub proof fn every_due_waiter_comes_out_once(
    before: Timer,
    after: Timer,
    now: Instant,
    expired: Vec<Waker>,
    h: TimerHandle,
)
    requires
        exists|timer: &mut Timer|
            *timer == before && *final(timer) == after && #[trigger] call_ensures(
                Timer::take_expired,
                (timer, now),
                expired,
            ),
    ensures
        exists|order: Seq<TimerHandle>|
            #![trigger order.no_duplicates()]
            {
                &&& order.no_duplicates()
                &&& order.len() == expired@.len()
                &&& forall|h: TimerHandle| #[trigger]
                    order.contains(h) <==> before.live().contains_key(h)
                        && before.live()[h].deadline@ <= now@
                &&& forall|i: int|
                    0 <= i < order.len() ==> expired@[i] == before.live()[#[trigger] order[i]].waker
                &&& forall|i: int, j: int|
                    0 <= i < j < order.len() ==> {
                        let a = before.live()[#[trigger] order[i]].deadline@;
                        let b = before.live()[#[trigger] order[j]].deadline@;
                        a < b || (a == b && order[i].generation() <= order[j].generation())
                    }
            },
        after.live().contains_key(h) <==> before.live().contains_key(h)
            && before.live()[h].deadline@
            > now@,
        after.live().contains_key(h) ==> after.live()[h] == before.live()[h],
{
    let live = before.live();
    let order = choose|order: Seq<TimerHandle>| #[trigger]
        firing_order(live, now@, order) && expired@ == Seq::<Waker>::empty() + waiters(live, order);
    assert(Seq::<Waker>::empty() + waiters(live, order) =~= expired@);
    assert(order.no_duplicates());
}

/// The heap hands its due waiters out behind those that are there already.
pub proof fn heaps_hand_out_every_due_waiter(
    before: DeadlineHeap,
    after: DeadlineHeap,
    now: Instant,
    earlier: Vec<Waker>,
    output: Vec<Waker>,
    h: TimerHandle,
)
    requires
        exists|heap: &mut DeadlineHeap, list: &mut Vec<Waker>|
            *heap == before && *final(heap) == after && *list == earlier && *final(list) == output
                && #[trigger] call_ensures(DeadlineHeap::pop_expired, (heap, now, list), ()),
    ensures
        earlier@.is_prefix_of(output@),
        exists|order: Seq<TimerHandle>|
            #![trigger order.no_duplicates()]
            {
                &&& order.no_duplicates()
                &&& order.len() == output@.len() - earlier@.len()
                &&& forall|h: TimerHandle| #[trigger]
                    order.contains(h) <==> before.live().contains_key(h)
                        && before.live()[h].deadline@ <= now@
                &&& forall|i: int|
                    0 <= i < order.len() ==> output@[earlier@.len() + i]
                        == before.live()[#[trigger] order[i]].waker
                &&& forall|i: int, j: int|
                    0 <= i < j < order.len() ==> {
                        let a = before.live()[#[trigger] order[i]].deadline@;
                        let b = before.live()[#[trigger] order[j]].deadline@;
                        a < b || (a == b && order[i].generation() <= order[j].generation())
                    }
            },
        after.live().contains_key(h) <==> before.live().contains_key(h)
            && before.live()[h].deadline@
            > now@,
        after.live().contains_key(h) ==> after.live()[h] == before.live()[h],
{
    let live = before.live();
    let order = choose|order: Seq<TimerHandle>| #[trigger]
        firing_order(live, now@, order) && output@ == earlier@ + waiters(live, order);
    assert(earlier@ + waiters(live, order) =~= output@);
    assert(order.no_duplicates());
}

/// A spin begins by handing out the waiter of every timer that is due, each once; once
/// they have been woken it says whether there were any, and how long it is to the earliest
/// deadline that is armed by then.
pub proof fn spins_wake_every_due_timer(
    before: Timer,
    after: Timer,
    now: Instant,
    r: SpinStep,
    h: TimerHandle,
)
    requires
        exists|timer: &mut Timer|
            *timer == before && *final(timer) == after && #[trigger] call_ensures(
                Timer::spin_and_get_deadline,
                (timer, SpinEvent::Begun { now }),
                r,
            ),
    ensures
        r matches SpinStep::Wake { expired, spin } && (spin.woke() <==> expired@.len() > 0)
            && exists|order: Seq<TimerHandle>|
            #![trigger order.no_duplicates()]
            {
                &&& order.no_duplicates()
                &&& order.len() == expired@.len()
                &&& forall|h: TimerHandle| #[trigger]
                    order.contains(h) <==> before.live().contains_key(h)
                        && before.live()[h].deadline@ <= now@
                &&& forall|i: int|
                    0 <= i < order.len() ==> expired@[i] == before.live()[#[trigger] order[i]].waker
                &&& forall|i: int, j: int|
                    0 <= i < j < order.len() ==> {
                        let a = before.live()[#[trigger] order[i]].deadline@;
                        let b = before.live()[#[trigger] order[j]].deadline@;
                        a < b || (a == b && order[i].generation() <= order[j].generation())
                    }
            },
        after.live().contains_key(h) <==> before.live().contains_key(h)
            && before.live()[h].deadline@
            > now@,
        after.live().contains_key(h) ==> after.live()[h] == before.live()[h],
{
    if let SpinStep::Wake { expired, spin } = r {
        let live = before.live();
        let order = choose|order: Seq<TimerHandle>| #[trigger]
            firing_order(live, now@, order) && expired@
                == Seq::<Waker>::empty() + waiters(live, order);
        assert(Seq::<Waker>::empty() + waiters(live, order) =~= expired@);
        assert(order.no_duplicates());
    }
}

/// The wait after a spin reaches exactly to the earliest deadline, and is none where that
/// has passed; nothing is armed or disarmed by asking.
pub proof fn waits_reach_to_the_earliest_deadline(
    before: Timer,
    after: Timer,
    spin: Spin,
    now: Instant,
    r: SpinStep,
)
    requires
        exists|timer: &mut Timer|
            *timer == before && *final(timer) == after && #[trigger] call_ensures(
                Timer::spin_and_get_deadline,
                (timer, SpinEvent::Woken { spin, now }),
                r,
            ),
    ensures
        after == before,
        r matches SpinStep::Done { wait, woken_up } && {
            &&& woken_up == spin.woke()
            &&& wait is None <==> before.live().dom() =~= Set::<TimerHandle>::empty()
            &&& wait matches Some(time) ==> {
                &&& forall|h: TimerHandle| #[trigger]
                    before.live().contains_key(h) ==> time@ == 0 || now@ + time@
                        <= before.live()[h].deadline@
                &&& exists|h: TimerHandle| #[trigger]
                    before.live().contains_key(h) && (now@ + time@
                        == before.live()[h].deadline@ || (
                    time@ == 0 && before.live()[h].deadline@ <= now@))
            }
        },
{
    if let SpinStep::Done { wait, woken_up } = r {
        if let Some(time) = wait {
            let first = choose|first: Instant| #[trigger]
                is_first_deadline(before.live(), Some(first)) && time@ == if now@ <= first@ {
                    first@ - now@
                } else {
                    0
                };
            let h = choose|h: TimerHandle| #[trigger]
                before.live().contains_key(h) && before.live()[h].deadline == first;
            assert(before.live().contains_key(h));
            assert(before.live().dom().contains(h));
        }
    }
}

/// The time to the next deadline reaches exactly to the earliest one.
pub proof fn times_reach_to_the_earliest_deadline(
    before: Timer,
    now: Instant,
    wait: Option<Duration>,
)
    requires
        call_ensures(Timer::time_to_deadline, (&before, now), wait),
    ensures
        wait is None <==> before.live().dom() =~= Set::<TimerHandle>::empty(),
        wait matches Some(time) ==> {
            &&& forall|h: TimerHandle| #[trigger]
                before.live().contains_key(h) ==> time@ == 0 || now@ + time@
                    <= before.live()[h].deadline@
            &&& exists|h: TimerHandle| #[trigger]
                before.live().contains_key(h) && (now@ + time@ == before.live()[h].deadline@ || (
                time@ == 0 && before.live()[h].deadline@ <= now@))
        },
{
    if let Some(time) = wait {
        let first = choose|first: Instant| #[trigger]
            is_first_deadline(before.live(), Some(first)) && time@ == if now@ <= first@ {
                first@ - now@
            } else {
                0
            };
        let h = choose|h: TimerHandle| #[trigger]
            before.live().contains_key(h) && before.live()[h].deadline == first;
        assert(before.live().contains_key(h));
        assert(before.live().dom().contains(h));
    }
}

/// The earliest deadline is one of a timer that is armed, and none is earlier; there is
/// none exactly where nothing is armed.
pub proof fn the_earliest_deadline_is_the_first(
    timer: Timer,
    r: Option<Instant>,
)
    requires
        call_ensures(Timer::deadline, (&timer,), r),
    ensures
        r is None <==> timer.live().dom() =~= Set::<TimerHandle>::empty(),
        r matches Some(first) ==> {
            &&& forall|h: TimerHandle| #[trigger]
                timer.live().contains_key(h) ==> first@ <= timer.live()[h].deadline@
            &&& exists|h: TimerHandle| #[trigger]
                timer.live().contains_key(h) && timer.live()[h].deadline@ == first@
        },
{
    if let Some(first) = r {
        let h = choose|h: TimerHandle| #[trigger]
            timer.live().contains_key(h) && timer.live()[h].deadline == first;
        assert(timer.live().dom().contains(h));
    }
}

/// The earliest deadline is one of a timer that is armed, and none is earlier; there is
/// none exactly where nothing is armed.
pub proof fn the_root_is_the_earliest_deadline(
    timer: DeadlineHeap,
    r: Option<Instant>,
)
    requires
        call_ensures(DeadlineHeap::deadline, (&timer,), r),
    ensures
        r is None <==> timer.live().dom() =~= Set::<TimerHandle>::empty(),
        r matches Some(first) ==> {
            &&& forall|h: TimerHandle| #[trigger]
                timer.live().contains_key(h) ==> first@ <= timer.live()[h].deadline@
            &&& exists|h: TimerHandle| #[trigger]
                timer.live().contains_key(h) && timer.live()[h].deadline@ == first@
        },
{
    if let Some(first) = r {
        let h = choose|h: TimerHandle| #[trigger]
            timer.live().contains_key(h) && timer.live()[h].deadline == first;
        assert(timer.live().dom().contains(h));
    }
}

/// A timer is armed exactly where its deadline lies ahead, for that deadline and that
/// waiter and under a handle that was not in use; no other timer changes. One that is due
/// comes back to be woken.
pub proof fn timers_are_armed_for_what_they_were_given(
    before: Timer,
    after: Timer,
    now: Instant,
    deadline: Instant,
    waker: Waker,
    r: Result<TimerHandle, Waker>,
    other: TimerHandle,
)
    requires
        exists|timer: &mut Timer|
            *timer == before && *final(timer) == after && #[trigger] call_ensures(
                Timer::submit,
                (timer, now, deadline, waker),
                r,
            ),
    ensures
        r is Ok <==> now@ < deadline@,
        r matches Err(due) ==> due == waker && after == before,
        r matches Ok(handle) ==> {
            &&& !before.live().contains_key(handle)
            &&& after.live().contains_key(handle)
            &&& after.live()[handle].deadline == deadline && after.live()[handle].waker == waker
            &&& other != handle ==> (after.live().contains_key(other) <==> before.live().contains_key(
                other,
            )) && (before.live().contains_key(other) ==> after.live()[other]
                == before.live()[other])
            &&& handle.generation() != 0
            &&& before.generation() < u64::MAX ==> handle.generation() == before.generation() + 1
            &&& after.generation() == handle.generation()
        },
{
}

/// A timer that is cancelled gives its own waiter back and is armed no more, so that
/// cancelling it again gives nothing; no other timer changes, and a stale handle changes
/// nothing at all.
pub proof fn cancelling_disarms_one_timer(
    before: Timer,
    after: Timer,
    again: Timer,
    handle: TimerHandle,
    r: Option<Waker>,
    r2: Option<Waker>,
    other: TimerHandle,
)
    requires
        exists|timer: &mut Timer|
            *timer == before && *final(timer) == after && #[trigger] call_ensures(
                Timer::cancel,
                (timer, handle),
                r,
            ),
        exists|timer: &mut Timer|
            *timer == after && *final(timer) == again && #[trigger] call_ensures(
                Timer::cancel,
                (timer, handle),
                r2,
            ),
    ensures
        r is Some <==> before.live().contains_key(handle),
        r matches Some(waker) ==> waker == before.live()[handle].waker,
        r2 is None,
        !after.live().contains_key(handle),
        other != handle ==> (after.live().contains_key(other) <==> before.live().contains_key(other))
            && (before.live().contains_key(other) ==> after.live()[other] == before.live()[other]),
        after.generation() == before.generation(),
        r is None ==> after.live() == before.live() && after.layout() == before.layout(),
{
    if r is None {
        assert(after.live() =~= before.live());
    }
}

/// Arming, cancelling and expiry fit together: what was armed is disarmed by its handle, or
/// comes out when it is due, and not before.
pub proof fn armed_timers_come_out_when_due(
    empty: Timer,
    armed: Timer,
    after: Timer,
    now: Instant,
    deadline: Instant,
    later: Instant,
    waker: Waker,
    handle: TimerHandle,
    expired: Vec<Waker>,
)
    requires
        call_ensures(Timer::new, (), empty),
        exists|timer: &mut Timer|
            *timer == empty && *final(timer) == armed && #[trigger] call_ensures(
                Timer::submit,
                (timer, now, deadline, waker),
                Ok(handle),
            ),
        exists|timer: &mut Timer|
            *timer == armed && *final(timer) == after && #[trigger] call_ensures(
                Timer::take_expired,
                (timer, later),
                expired,
            ),
    ensures
        if deadline@ <= later@ {
            expired@ == seq![waker] && !after.live().contains_key(handle)
        } else {
            expired@.len() == 0 && after.live().contains_key(handle)
        },
{
    let live = armed.live();
    let order = choose|order: Seq<TimerHandle>| #[trigger]
        firing_order(live, later@, order) && expired@ == Seq::<Waker>::empty() + waiters(
            live,
            order,
        );
    assert(live.contains_key(handle));
    assert forall|i: int| 0 <= i < order.len() implies order[i] == handle by {
        assert(order.contains(order[i]));
    }
    if deadline@ <= later@ {
        assert(order.contains(handle));
        assert(order.len() == 1) by {
            if order.len() > 1 {
                assert(order[0] == order[1]);
            }
        }
        assert(expired@ =~= seq![waker]);
    } else {
        assert(order.len() == 0) by {
            if order.len() > 0 {
                assert(order.contains(order[0]));
            }
        }
    }
}

/// A waiter is kept where it is known to wake the task, else replaced by the one that is
/// handed in, and asked for where there is none; the deadline and the place of the timer
/// stay, and so does every other timer. A stale handle changes nothing.
pub proof fn waiters_are_kept_or_replaced(
    before: Timer,
    after: Timer,
    handle: TimerHandle,
    same: bool,
    replacement: Option<Waker>,
    r: WakerUpdate,
    other: TimerHandle,
)
    requires
        exists|timer: &mut Timer|
            *timer == before && *final(timer) == after && #[trigger] call_ensures(
                Timer::exchange_waker,
                (timer, handle, same, replacement),
                r,
            ),
    ensures
        !before.live().contains_key(handle) ==> r == (WakerUpdate::Stale { unused: replacement })
            && after == before,
        before.live().contains_key(handle) && same ==> r
            == (WakerUpdate::Kept { unused: replacement })
            && after == before,
        before.live().contains_key(handle) && !same ==> match replacement {
            Some(fresh) => {
                &&& r == (WakerUpdate::Replaced { replaced: before.live()[handle].waker })
                &&& after.live().contains_key(handle)
                &&& after.live()[handle].waker == fresh
                &&& after.live()[handle].deadline == before.live()[handle].deadline
            },
            None => r is NeedsWaker && after == before,
        },
        other != handle ==> (after.live().contains_key(other) <==> before.live().contains_key(other))
            && (before.live().contains_key(other) ==> after.live()[other] == before.live()[other]),
        after.layout() == before.layout() && after.generation() == before.generation(),
{
}

/// After an update with a waiter of the task at hand, a live timer wakes that task.
pub proof fn updated_timers_wake_the_task(
    before: Timer,
    after: Timer,
    handle: TimerHandle,
    waker: Waker,
    clone: Waker,
    r: WakerUpdate,
)
    requires
        exists|timer: &mut Timer|
            *timer == before && *final(timer) == after && #[trigger] call_ensures(
                Timer::update_waker,
                (timer, handle, &waker, Some(clone)),
                r,
            ),
        woken_task(clone) == woken_task(waker),
    ensures
        r is Stale <==> !before.live().contains_key(handle),
        !(r is NeedsWaker),
        before.live().contains_key(handle) ==> after.live().contains_key(handle) && woken_task(
            after.live()[handle].waker,
        ) == woken_task(waker) && after.live()[handle].deadline == before.live()[handle].deadline,
        r matches WakerUpdate::Replaced { replaced } ==> replaced == before.live()[handle].waker,
{
}

/// New timers are none, by either way of making them.
pub proof fn new_timers_are_none(
    a: Timer,
    b: Timer,
    heap: DeadlineHeap,
    h: TimerHandle,
)
    requires
        call_ensures(Timer::new, (), a),
        call_ensures(<Timer as Default>::default, (), b),
        call_ensures(DeadlineHeap::new, (), heap),
    ensures
        !a.live().contains_key(h) && !b.live().contains_key(h) && !heap.live().contains_key(h),
{
}

/// The heap arms and disarms one timer at a time.
pub proof fn heaps_change_one_timer_at_a_time(
    before: DeadlineHeap,
    armed: DeadlineHeap,
    removed: DeadlineHeap,
    deadline: Instant,
    waker: Waker,
    fresh: TimerHandle,
    handle: TimerHandle,
    r: Option<Waker>,
    other: TimerHandle,
)
    requires
        exists|heap: &mut DeadlineHeap|
            *heap == before && *final(heap) == armed && #[trigger] call_ensures(
                DeadlineHeap::insert,
                (heap, deadline, waker),
                fresh,
            ),
        exists|heap: &mut DeadlineHeap|
            *heap == before && *final(heap) == removed && #[trigger] call_ensures(
                DeadlineHeap::remove,
                (heap, handle),
                r,
            ),
    ensures
        !before.live().contains_key(fresh) && armed.live().contains_key(fresh),
        armed.live()[fresh].deadline == deadline && armed.live()[fresh].waker == waker,
        r is Some <==> before.live().contains_key(handle),
        r matches Some(own) ==> own == before.live()[handle].waker,
        !removed.live().contains_key(handle),
        other != fresh ==> (armed.live().contains_key(other) <==> before.live().contains_key(other))
            && (before.live().contains_key(other) ==> armed.live()[other] == before.live()[other]),
        other != handle ==> (removed.live().contains_key(other) <==> before.live().contains_key(other))
            && (before.live().contains_key(other) ==> removed.live()[other]
                == before.live()[other]),
{
}

/// Giving a timer another waiter changes nothing but that waiter; one that is not kept comes back.
pub proof fn replaced_waiters_come_back(
    before: DeadlineHeap,
    after: DeadlineHeap,
    handle: TimerHandle,
    incoming: Waker,
    r: Result<Waker, Waker>,
    other: TimerHandle,
)
    requires
        exists|it: &mut DeadlineHeap|
            *it == before && *final(it) == after && #[trigger] call_ensures(
                DeadlineHeap::replace_waker,
                (it, handle, incoming),
                r,
            ),
    ensures
        r is Ok <==> before.live().contains_key(handle),
        r matches Ok(old_one) ==> old_one == before.live()[handle].waker
            && after.live().contains_key(handle)
            && after.live()[handle].waker == incoming && after.live()[handle].deadline
            == before.live()[handle].deadline,
        r matches Err(unused) ==> unused == incoming && after.live() == before.live(),
        other != handle ==> (after.live().contains_key(other) <==> before.live().contains_key(other)) && (
        before.live().contains_key(other) ==> after.live()[other] == before.live()[other]),
        after.layout() == before.layout(),
{
}

/// A timer shows its heap, and a handle its slot.
pub proof fn heaps_and_slots_are_shown(
    timer: Timer,
    heap: &Vec<usize>,
    handle: TimerHandle,
    slot: usize,
)
    requires
        call_ensures(Timer::heap, (&timer,), heap),
        call_ensures(TimerHandle::slab_index, (&handle,), slot),
    ensures
        heap@ == timer.layout() && slot == handle.slot(),
{
}

/// An update without a waiter at hand keeps the one that is there, or asks for another: nothing changes.
pub proof fn updates_without_a_waiter_change_nothing(
    before: Timer,
    after: Timer,
    handle: TimerHandle,
    waker: Waker,
    r: WakerUpdate,
)
    requires
        exists|timer: &mut Timer|
            *timer == before && *final(timer) == after && #[trigger] call_ensures(
                Timer::update_waker,
                (timer, handle, &waker, None),
                r,
            ),
    ensures
        after == before,
        r is Stale <==> !before.live().contains_key(handle),
        r matches WakerUpdate::Kept { unused } ==> unused is None
            && woken_task(before.live()[handle].waker)
            == woken_task(waker),
        !(r is Replaced),
{
}

} // verus!
