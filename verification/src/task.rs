//! Waking tasks.

use vstd::prelude::*;

use crossbeam_queue::SegQueue;

verus! {

/// `crossbeam_queue::SegQueue`, an unbounded queue. What one holds is named by
/// `queued_tokens`.
#[verifier::external_type_specification]
#[verifier::external_body]
#[verifier::reject_recursive_types(T)]
pub struct ExSegQueue<T>(crossbeam_queue::SegQueue<T>);

/// The tokens in a queue, the one to be popped first in front.
pub uninterp spec fn queued_tokens(queue: SegQueue<usize>) -> Seq<usize>;

/// `crossbeam_queue::SegQueue::new`: an empty queue.
#[verifier::external_body]
fn queue_new() -> (r: SegQueue<usize>)
    ensures
        queued_tokens(r) == Seq::<usize>::empty(),
{
    SegQueue::new()
}

/// `crossbeam_queue::SegQueue::push`, by one who has the queue to themselves:
/// the value goes to the tail.
#[verifier::external_body]
fn queue_push(queue: &mut SegQueue<usize>, token: usize)
    ensures
        queued_tokens(*final(queue)) == queued_tokens(*old(queue)).push(token),
{
    queue.push(token)
}

/// `crossbeam_queue::SegQueue::pop`, by one who has the queue to themselves: the
/// value at the head, or `None` of an empty queue.
#[verifier::external_body]
fn queue_pop(queue: &mut SegQueue<usize>) -> (r: Option<usize>)
    ensures
        r is None <==> queued_tokens(*old(queue)).len() == 0,
        r matches Some(token) ==> token == queued_tokens(*old(queue))[0] && queued_tokens(
            *final(queue),
        ) == queued_tokens(*old(queue)).skip(1),
        r is None ==> queued_tokens(*final(queue)) == queued_tokens(*old(queue)),
{
    queue.pop()
}

/// What an event loop shares with those who wake its tasks from elsewhere.
pub struct RemoteWakeContext {
    queue: SegQueue<usize>,
    waiting: bool,
    interrupt_pending: bool,
}

/// The part of a task that a waker holds: nothing of it is bound to the thread
/// of the task.
#[derive(Debug, Clone, Copy, PartialEq, Eq, Structural)]
pub struct TaskWake {
    /// Whether the task waits in a queue to be polled.
    pub queued: bool,
    /// The thread that the task runs on.
    pub thread_id: u64,
    pub token: usize,
}

/// What waking a task leads to.
#[derive(Debug, Clone, Copy, PartialEq, Eq, Structural)]
pub enum WakeStep {
    /// Nothing is left to be done.
    Done,
    /// Offer the task to the queue of the thread that is its own.
    OfferLocal,
    /// Interrupt the wait of the event loop.
    Interrupt,
}

impl RemoteWakeContext {
    /// The tokens of the tasks that were woken from elsewhere, in the order in
    /// which they will be polled.
    pub closed spec fn tokens(self) -> Seq<usize> {
        queued_tokens(self.queue)
    }

    /// Whether the event loop waits.
    pub closed spec fn waits(self) -> bool {
        self.waiting
    }

    /// Whether an interrupt is under way.
    pub closed spec fn interrupted(self) -> bool {
        self.interrupt_pending
    }

    pub fn new() -> (r: Self)
        ensures
            r.tokens() == Seq::<usize>::empty(),
            !r.waits(),
            !r.interrupted(),
    {
        RemoteWakeContext { queue: queue_new(), waiting: false, interrupt_pending: false }
    }

    /// Record whether the event loop waits.
    pub fn set_waiting(&mut self, waiting: bool)
        ensures
            final(self).waits() == waiting,
            final(self).tokens() == old(self).tokens(),
            final(self).interrupted() == old(self).interrupted(),
    {
        self.waiting = waiting;
    }

    /// Record that the interrupt has arrived.
    pub fn interrupt_received(&mut self)
        ensures
            !final(self).interrupted(),
            final(self).tokens() == old(self).tokens(),
            final(self).waits() == old(self).waits(),
    {
        self.interrupt_pending = false;
    }

    /// The next task that was woken from elsewhere.
    pub fn pop(&mut self) -> (r: Option<usize>)
        ensures
            r == if old(self).tokens().len() == 0 {
                None
            } else {
                Some(old(self).tokens()[0])
            },
            final(self).tokens() == if old(self).tokens().len() == 0 {
                old(self).tokens()
            } else {
                old(self).tokens().skip(1)
            },
            final(self).waits() == old(self).waits(),
            final(self).interrupted() == old(self).interrupted(),
    {
        queue_pop(&mut self.queue)
    }

    /// A loop that waits is interrupted, once until the interrupt has arrived.
    fn interrupt_if_waiting(&mut self) -> (r: WakeStep)
        ensures
            r == interrupt_step(old(self).waits(), old(self).interrupted()),
            final(self).interrupted() == (old(self).interrupted() || old(self).waits()),
            final(self).tokens() == old(self).tokens(),
            final(self).waits() == old(self).waits(),
    {
        if self.waiting && !self.interrupt_pending {
            self.interrupt_pending = true;
            WakeStep::Interrupt
        } else {
            WakeStep::Done
        }
    }
}

/// Whether an event loop is interrupted.
pub open spec fn interrupt_step(waiting: bool, interrupt_pending: bool) -> WakeStep {
    if waiting && !interrupt_pending {
        WakeStep::Interrupt
    } else {
        WakeStep::Done
    }
}

impl TaskWake {
    /// The proxy of a task that is not queued.
    pub fn new(thread_id: u64, token: usize) -> (r: Self)
        ensures
            r == (TaskWake { queued: false, thread_id, token }),
    {
        TaskWake { queued: false, thread_id, token }
    }

    /// Wake the task, from the thread `thread`. A task whose event loop is gone
    /// is left alone. One that is queued is not queued again; otherwise it goes
    /// to the queue of its own thread, where that is where it is woken, or to the
    /// shared one. A loop that waits is interrupted, unless its own queue takes
    /// the task.
    pub fn wake(&mut self, remote: Option<&mut RemoteWakeContext>, thread: u64) -> (r: WakeStep)
        ensures
            final(self).token == old(self).token,
            final(self).thread_id == old(self).thread_id,
            match remote {
                None => r is Done && final(self).queued == old(self).queued,
                Some(context) => woken(
                    *old(self),
                    *context,
                    *final(context),
                    thread,
                    r,
                ) && final(self).queued,
            },
    {
        match remote {
            None => WakeStep::Done,
            Some(context) => {
                if !self.queued {
                    self.queued = true;
                    if thread == self.thread_id {
                        return WakeStep::OfferLocal;
                    }
                    queue_push(&mut context.queue, self.token);
                }
                context.interrupt_if_waiting()
            },
        }
    }

    /// Go on where the queue of the task's own thread did not take it: the task
    /// goes to the shared queue.
    pub fn local_refused(&self, remote: &mut RemoteWakeContext) -> (r: WakeStep)
        ensures
            r == interrupt_step(old(remote).waits(), old(remote).interrupted()),
            final(remote).tokens() == old(remote).tokens().push(self.token),
            final(remote).interrupted() == (old(remote).interrupted() || old(remote).waits()),
            final(remote).waits() == old(remote).waits(),
    {
        queue_push(&mut remote.queue, self.token);
        remote.interrupt_if_waiting()
    }

    /// Record that the task was taken from its queue, before it is polled: a wake
    /// from then on queues it again.
    pub fn mark_dequeued(&mut self)
        ensures
            *final(self) == (TaskWake { queued: false, ..*old(self) }),
    {
        self.queued = false;
    }
}

/// What waking a task on a live event loop does to the shared state.
pub open spec fn woken(
    task: TaskWake,
    before: RemoteWakeContext,
    after: RemoteWakeContext,
    thread: u64,
    r: WakeStep,
) -> bool {
    &&& after.waits() == before.waits()
    &&& if !task.queued && thread == task.thread_id {
        r is OfferLocal && after.tokens() == before.tokens() && after.interrupted()
            == before.interrupted()
    } else {
        &&& r == interrupt_step(before.waits(), before.interrupted())
        &&& after.interrupted() == (before.interrupted() || before.waits())
        &&& after.tokens() == if task.queued {
            before.tokens()
        } else {
            before.tokens().push(task.token)
        }
    }
}

/// However often a task is woken, from whatever threads, until it is taken from
/// its queue, it is queued exactly once: it is offered to the queue of its own
/// thread by the first wake, or that wake puts it into the shared queue, and no
/// later one does either. The event loop is interrupted at most once.
pub proof fn woken_often_queues_once(
    task: TaskWake,
    contexts: Seq<RemoteWakeContext>,
    threads: Seq<u64>,
    steps: Seq<WakeStep>,
)
    requires
        !task.queued,
        0 < threads.len(),
        contexts.len() == threads.len() + 1,
        steps.len() == threads.len(),
        forall|i: int|
            0 <= i < threads.len() ==> woken(
                TaskWake { queued: i > 0, ..task },
                contexts[i],
                contexts[i + 1],
                #[trigger] threads[i],
                steps[i],
            ),
    ensures
        steps[0] is OfferLocal <==> threads[0] == task.thread_id,
        forall|i: int| 0 < i < steps.len() ==> !(#[trigger] steps[i] is OfferLocal),
        contexts.last().tokens() == if steps[0] is OfferLocal {
            contexts.first().tokens()
        } else {
            contexts.first().tokens().push(task.token)
        },
        forall|i: int, j: int|
            0 <= i < j < steps.len() && #[trigger] steps[i] is Interrupt ==> !(#[trigger] steps[j]
                is Interrupt),
{
    assert(woken(
        TaskWake { queued: false, ..task },
        contexts[0],
        contexts[1],
        threads[0],
        steps[0],
    ));
    lemma_queued_stays(task, contexts, threads, steps, threads.len() as int);
    assert forall|i: int| 0 < i < steps.len() implies !(#[trigger] steps[i] is OfferLocal) by {
        assert(woken(
            TaskWake { queued: true, ..task },
            contexts[i],
            contexts[i + 1],
            threads[i],
            steps[i],
        ));
    }
    assert forall|i: int, j: int|
        0 <= i < j < steps.len() && #[trigger] steps[i] is Interrupt implies !(#[trigger] steps[j]
        is Interrupt) by {
        assert(woken(
            TaskWake { queued: i > 0, ..task },
            contexts[i],
            contexts[i + 1],
            threads[i],
            steps[i],
        ));
        lemma_interrupted_stays(task, contexts, threads, steps, i + 1, j);
        assert(woken(
            TaskWake { queued: true, ..task },
            contexts[j],
            contexts[j + 1],
            threads[j],
            steps[j],
        ));
    }
}

/// Waking a queued task leaves the shared queue as it is.
proof fn lemma_queued_stays(
    task: TaskWake,
    contexts: Seq<RemoteWakeContext>,
    threads: Seq<u64>,
    steps: Seq<WakeStep>,
    upto: int,
)
    requires
        1 <= upto <= threads.len(),
        contexts.len() == threads.len() + 1,
        steps.len() == threads.len(),
        forall|i: int|
            0 <= i < threads.len() ==> woken(
                TaskWake { queued: i > 0, ..task },
                contexts[i],
                contexts[i + 1],
                #[trigger] threads[i],
                steps[i],
            ),
    ensures
        contexts[upto].tokens() == contexts[1].tokens(),
    decreases upto,
{
    if upto > 1 {
        lemma_queued_stays(task, contexts, threads, steps, upto - 1);
        assert(woken(
            TaskWake { queued: true, ..task },
            contexts[upto - 1],
            contexts[upto],
            threads[upto - 1],
            steps[upto - 1],
        ));
    }
}

/// No wake takes an interrupt back that is under way.
proof fn lemma_interrupted_stays(
    task: TaskWake,
    contexts: Seq<RemoteWakeContext>,
    threads: Seq<u64>,
    steps: Seq<WakeStep>,
    from: int,
    upto: int,
)
    requires
        1 <= from <= upto <= threads.len(),
        contexts.len() == threads.len() + 1,
        steps.len() == threads.len(),
        contexts[from].interrupted(),
        forall|i: int|
            0 <= i < threads.len() ==> woken(
                TaskWake { queued: i > 0, ..task },
                contexts[i],
                contexts[i + 1],
                #[trigger] threads[i],
                steps[i],
            ),
    ensures
        contexts[upto].interrupted(),
    decreases upto,
{
    if upto > from {
        lemma_interrupted_stays(task, contexts, threads, steps, from, upto - 1);
        assert(woken(
            TaskWake { queued: true, ..task },
            contexts[upto - 1],
            contexts[upto],
            threads[upto - 1],
            steps[upto - 1],
        ));
    }
}

/// A task is woken once until it is taken from its queue: the first wake offers it to the queue of
/// its own thread, or puts its token behind all others that wait; later ones add nothing. A loop
/// that waits is interrupted, once, unless its own queue is offered the task. A task whose loop is
/// gone is left alone.
pub proof fn wakes_queue_the_task_once(
    before: TaskWake,
    after: TaskWake,
    context: RemoteWakeContext,
    context2: RemoteWakeContext,
    thread: u64,
    r: WakeStep,
    i: int,
)
    requires
        exists|it: &mut TaskWake, remote: &mut RemoteWakeContext|
            *it == before && *final(it) == after && *remote == context && *final(remote) == context2
                && #[trigger] call_ensures(TaskWake::wake, (it, Some(remote), thread), r),
    ensures
        after.queued && after.token == before.token && after.thread_id == before.thread_id,
        r is OfferLocal <==> !before.queued && thread == before.thread_id,
        context2.tokens().len() == context.tokens().len() + if !before.queued && thread
            != before.thread_id {
            1int
        } else {
            0
        },
        0 <= i < context.tokens().len() ==> context2.tokens()[i] == context.tokens()[i],
        !before.queued && thread != before.thread_id ==> context2.tokens().last() == before.token,
        r is Interrupt <==> !(r is OfferLocal) && context.waits() && !context.interrupted(),
        context2.interrupted() <==> context.interrupted() || r is Interrupt,
        context2.waits() == context.waits(),
{
}

/// A task whose event loop is gone is left alone.
pub proof fn tasks_without_a_loop_are_left_alone(
    before: TaskWake,
    after: TaskWake,
    thread: u64,
    r: WakeStep,
)
    requires
        exists|it: &mut TaskWake|
            *it == before && *final(it) == after && #[trigger] call_ensures(
                TaskWake::wake,
                (it, None, thread),
                r,
            ),
    ensures
        r is Done && after == before,
{
}

/// A task that its own queue did not take goes to the shared one, behind all others; the loop is
/// interrupted where it waits.
pub proof fn refused_tasks_go_to_the_shared_queue(
    task: TaskWake,
    context: RemoteWakeContext,
    context2: RemoteWakeContext,
    r: WakeStep,
    i: int,
    made: TaskWake,
    thread: u64,
    token: usize,
    dequeued: TaskWake,
)
    requires
        exists|remote: &mut RemoteWakeContext|
            *remote == context && *final(remote) == context2 && #[trigger] call_ensures(
                TaskWake::local_refused,
                (&task, remote),
                r,
            ),
        call_ensures(TaskWake::new, (thread, token), made),
        exists|it: &mut TaskWake|
            *it == task && *final(it) == dequeued && #[trigger] call_ensures(
                TaskWake::mark_dequeued,
                (it,),
                (),
            ),
    ensures
        context2.tokens().len() == context.tokens().len() + 1,
        context2.tokens().last() == task.token,
        0 <= i < context.tokens().len() ==> context2.tokens()[i] == context.tokens()[i],
        r is Interrupt <==> context.waits() && !context.interrupted(),
        !(r is OfferLocal),
        context2.interrupted() <==> context.interrupted() || r is Interrupt,
        !made.queued && made.thread_id == thread && made.token == token,
        !dequeued.queued && dequeued.token == task.token && dequeued.thread_id == task.thread_id,
{
}

/// Woken tasks are polled in the order in which they were woken, each once; interrupts and waits
/// are recorded as they come.
pub proof fn woken_tasks_are_polled_in_order(
    before: RemoteWakeContext,
    popped: RemoteWakeContext,
    set: RemoteWakeContext,
    heard: RemoteWakeContext,
    fresh: RemoteWakeContext,
    r: Option<usize>,
    waiting: bool,
    i: int,
)
    requires
        exists|it: &mut RemoteWakeContext|
            *it == before && *final(it) == popped && #[trigger] call_ensures(
                RemoteWakeContext::pop,
                (it,),
                r,
            ),
        exists|it: &mut RemoteWakeContext|
            *it == before && *final(it) == set && #[trigger] call_ensures(
                RemoteWakeContext::set_waiting,
                (it, waiting),
                (),
            ),
        exists|it: &mut RemoteWakeContext|
            *it == before && *final(it) == heard && #[trigger] call_ensures(
                RemoteWakeContext::interrupt_received,
                (it,),
                (),
            ),
        call_ensures(RemoteWakeContext::new, (), fresh),
    ensures
        r is None <==> before.tokens().len() == 0,
        r matches Some(token) ==> token == before.tokens().first() && popped.tokens().len() + 1
            == before.tokens().len() && (0 <= i < popped.tokens().len() ==> popped.tokens()[i]
            == before.tokens()[i + 1]),
        r is None ==> popped.tokens() == before.tokens(),
        set.waits() == waiting && set.tokens() == before.tokens() && set.interrupted()
            == before.interrupted(),
        !heard.interrupted() && heard.tokens() == before.tokens() && heard.waits()
            == before.waits(),
        popped.waits() == before.waits() && popped.interrupted() == before.interrupted(),
        fresh.tokens().len() == 0 && !fresh.waits() && !fresh.interrupted(),
{
}

} // verus!
