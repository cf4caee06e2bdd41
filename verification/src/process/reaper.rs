//! Reaping child processes.
//!
//! A child that has exited stays behind until someone waits for it. Whoever holds
//! a child here either waits for it or hands it to someone who does.

use vstd::prelude::*;

use vstd::multiset::Multiset;

use crate::error::{ErrorKind, IoError};

verus! {

/// Linux: the system call does not exist.
pub const ENOSYS: i32 = 38;

/// A child that someone has to wait for. It stays so in queues and in work that
/// is cancelled.
pub struct ReapChild<C> {
    child: Option<C>,
}

/// What dropping a child leads to.
pub enum DropStep<C> {
    Done,
    /// A worker is to wait for it.
    StartWorker(C),
}

impl<C> ReapChild<C> {
    /// The child, while it is held.
    pub closed spec fn held(self) -> Option<C> {
        self.child
    }

    pub fn new(child: C) -> (r: Self)
        ensures
            r.held() == Some(child),
    {
        ReapChild { child: Some(child) }
    }

    /// The child, to be asked for its status or waited for.
    pub fn child_mut(&mut self) -> (r: Option<&mut C>)
        ensures
            match r {
                Some(child) => old(self).held() == Some(*child) && final(self).held() == Some(
                    *final(child),
                ),
                None => old(self).held() is None && final(self).held() is None,
            },
    {
        self.child.as_mut()
    }

    /// Take the child out: one that has been reaped must not be waited for again,
    /// since its number may be in use for another.
    pub fn take(&mut self) -> (r: Option<C>)
        ensures
            r == old(self).held(),
            final(self).held() is None,
    {
        self.child.take()
    }
}

/// What is done with a child that is dropped, by what asking for its status came
/// to: only one that is known to have exited needs nobody to wait for it.
pub fn dropped<C, S>(child: C, tried: Result<Option<S>, IoError>) -> (r: DropStep<C>)
    ensures
        r == match tried {
            Ok(Some(_)) => DropStep::Done,
            _ => DropStep::StartWorker(child),
        },
{
    match tried {
        Ok(Some(_)) => DropStep::Done,
        _ => DropStep::StartWorker(child),
    }
}

/// A child on its way to a worker. Whoever takes it first waits for it.
pub struct PendingChild<C> {
    child: Option<C>,
}

impl<C> PendingChild<C> {
    pub closed spec fn held(self) -> Option<C> {
        self.child
    }

    pub fn new(child: C) -> (r: Self)
        ensures
            r.held() == Some(child),
    {
        PendingChild { child: Some(child) }
    }

    /// Take the child to wait for it.
    pub fn take(&mut self) -> (r: Option<C>)
        ensures
            r == old(self).held(),
            final(self).held() is None,
    {
        self.child.take()
    }

    /// Go on once the worker was started, or was not: then the child is waited
    /// for here, as a last resort.
    pub fn reap_with_worker(&mut self, started: Result<(), IoError>) -> (wait_here: Option<C>)
        ensures
            wait_here == if started is Err {
                old(self).held()
            } else {
                None
            },
            final(self).held() == if started is Err {
                None
            } else {
                old(self).held()
            },
    {
        match started {
            Ok(_) => None,
            Err(_) => self.child.take(),
        }
    }
}

/// Who waits for a child.
pub enum WaitRoute<P> {
    /// The reaper of the event loop has it.
    Reaper,
    /// A thread of its own is to wait for it.
    Background(P),
}

/// Where a child to be waited for goes: `offered` is what came back from offering
/// it to the reaper of the event loop, or the child itself where there is none.
pub fn route_wait<P>(offered: Result<(), P>) -> (r: WaitRoute<P>)
    ensures
        r == match offered {
            Ok(_) => WaitRoute::Reaper,
            Err(message) => WaitRoute::Background(message),
        },
{
    match offered {
        Ok(_) => WaitRoute::Reaper,
        Err(message) => WaitRoute::Background(message),
    }
}

/// What a wait comes to: the status that was sent, or an error where the sender
/// is gone.
pub fn wait_result<S>(received: Option<Result<S, IoError>>) -> (r: Result<S, IoError>)
    ensures
        r == match received {
            Some(status) => status,
            None => Err(IoError::Message(ErrorKind::Other, "zombie reaper error")),
        },
{
    match received {
        Some(status) => status,
        None => Err(IoError::Message(ErrorKind::Other, "zombie reaper error")),
    }
}

/// What is done with a child by what asking for its status came to.
pub enum Triage<S> {
    /// It is over: tell whoever asked.
    Deliver(Result<S, IoError>),
    /// It runs on: watch it.
    Watch,
}

pub open spec fn triage_spec<S>(tried: Result<Option<S>, IoError>) -> Triage<S> {
    match tried {
        Ok(Some(status)) => Triage::Deliver(Ok(status)),
        Ok(None) => Triage::Watch,
        Err(error) => Triage::Deliver(Err(error)),
    }
}

pub fn triage<S>(tried: Result<Option<S>, IoError>) -> (r: Triage<S>)
    ensures
        r == triage_spec(tried),
{
    match tried {
        Ok(Some(status)) => Triage::Deliver(Ok(status)),
        Ok(None) => Triage::Watch,
        Err(error) => Triage::Deliver(Err(error)),
    }
}

/// What a wait by a descriptor of the process leads to.
pub enum PidfdOutcome<C> {
    /// The child has been reaped by the wait itself.
    Deliver(i32),
    /// A thread of its own is to wait for it.
    Background(ReapChild<C>),
}

/// Go on after a wait by a descriptor of the process: where it succeeded the
/// child is let go, lest its number is waited for again.
pub fn pidfd_finished<C>(child: ReapChild<C>, waited: Result<i32, IoError>) -> (r: PidfdOutcome<C>)
    ensures
        r == match waited {
            Ok(status) => PidfdOutcome::<C>::Deliver(status),
            Err(_) => PidfdOutcome::Background(child),
        },
{
    match waited {
        Ok(status) => PidfdOutcome::Deliver(status),
        Err(_) => PidfdOutcome::Background(child),
    }
}

/// Whether the kernel has descriptors of processes, by the outcome of opening one
/// of the own process: any other error than that of a missing call means yes.
pub fn pidfd_available(opened: Result<(), IoError>) -> (r: bool)
    ensures
        r == !(opened matches Err(error) && error.code() == Some(ENOSYS)),
{
    match opened {
        Ok(_) => true,
        Err(error) => match error.raw_os_error() {
            Some(code) => code != ENOSYS,
            None => true,
        },
    }
}

/// The reaper of Unix systems without descriptors of processes. `P` is a child
/// with whoever asked for it. Children that run on are kept, and asked again each
/// time a child of the process exits.
pub struct UnixReaper<P> {
    threads: bool,
    processes: Vec<P>,
}

/// What the reaper does next.
pub enum ReaperStep<P> {
    /// Ask each of these for its status, and take in the answer.
    TryWait(Vec<P>),
    /// Let a thread of its own wait for each of these.
    Background(Vec<P>),
    /// Let a thread of its own wait for each of these, and stop.
    Stop(Vec<P>),
}

impl<P> ReaperStep<P> {
    /// The children that the step hands out.
    pub open spec fn batch(self) -> Seq<P> {
        match self {
            ReaperStep::TryWait(batch) => batch@,
            ReaperStep::Background(batch) => batch@,
            ReaperStep::Stop(batch) => batch@,
        }
    }
}

impl<P> UnixReaper<P> {
    /// The children that are kept.
    pub closed spec fn kept(self) -> Seq<P> {
        self.processes@
    }

    /// Whether each child gets a thread of its own, for want of the signal.
    pub closed spec fn by_threads(self) -> bool {
        self.threads
    }

    /// No child is kept where each gets a thread of its own.
    pub open spec fn wf(self) -> bool {
        self.by_threads() ==> self.kept().len() == 0
    }

    /// A reaper, by the outcome of listening for the signal of child processes.
    pub fn new(listening: Result<(), IoError>) -> (r: Self)
        ensures
            r.wf(),
            r.kept() == Seq::<P>::empty(),
            r.by_threads() == listening is Err,
    {
        UnixReaper { threads: listening.is_err(), processes: Vec::new() }
    }

    /// Take in a child to be reaped, or `None` where no more will come.
    pub fn received(&mut self, message: Option<P>) -> (r: ReaperStep<P>)
        requires
            old(self).wf(),
        ensures
            final(self).wf(),
            final(self).by_threads() == old(self).by_threads(),
            match message {
                Some(process) => {
                    &&& final(self).kept() == old(self).kept()
                    &&& if old(self).by_threads() {
                        r matches ReaperStep::Background(batch) && batch@ == seq![process]
                    } else {
                        r matches ReaperStep::TryWait(batch) && batch@ == seq![process]
                    }
                },
                None => {
                    &&& r matches ReaperStep::Stop(batch) && batch@ == old(self).kept()
                    &&& final(self).kept().len() == 0
                },
            },
            conserves(
                *old(self),
                *final(self),
                match message {
                    Some(process) => seq![process],
                    None => seq![],
                },
                r.batch(),
            ),
    {
        proof {
            lemma_conserved(old(self).kept());
        }
        match message {
            Some(process) => {
                let mut batch: Vec<P> = Vec::new();
                batch.push(process);
                assert(batch@ =~= seq![process]);
                if self.threads {
                    ReaperStep::Background(batch)
                } else {
                    ReaperStep::TryWait(batch)
                }
            },
            None => ReaperStep::Stop(self.take_processes()),
        }
    }

    /// Take in that a child exited, or that the signal is no longer heard of: then
    /// every child gets a thread of its own from now on.
    pub fn signalled(&mut self, signal: Result<(), IoError>) -> (r: ReaperStep<P>)
        requires
            old(self).wf(),
        ensures
            final(self).wf(),
            signalled_step(*old(self), *final(self), signal, r),
            conserves(*old(self), *final(self), seq![], r.batch()),
    {
        proof {
            lemma_conserved(old(self).kept());
        }
        let batch = self.take_processes();
        match signal {
            Ok(_) => ReaperStep::TryWait(batch),
            Err(_) => {
                self.threads = true;
                ReaperStep::Background(batch)
            },
        }
    }

    /// Take in what asking a child for its status came to: it is kept behind
    /// those that are kept already, or comes back with what is to be told.
    pub fn tried<S>(&mut self, process: P, tried: Result<Option<S>, IoError>) -> (r: Option<
        (P, Result<S, IoError>),
    >)
        requires
            old(self).wf(),
            !old(self).by_threads(),
        ensures
            final(self).wf(),
            tried_step(*old(self), *final(self), process, tried, r),
            conserves(*old(self), *final(self), seq![process], told_by(r)),
    {
        proof {
            lemma_conserved(old(self).kept());
            assert(old(self).kept().push(process) + Seq::<P>::empty() =~= old(self).kept()
                + seq![process]);
        }
        match triage(tried) {
            Triage::Deliver(result) => Some((process, result)),
            Triage::Watch => {
                self.processes.push(process);
                None
            },
        }
    }

    fn take_processes(&mut self) -> (r: Vec<P>)
        ensures
            r@ == old(self).kept(),
            final(self).kept().len() == 0,
            final(self).by_threads() == old(self).by_threads(),
    {
        let mut batch: Vec<P> = Vec::new();
        core::mem::swap(&mut self.processes, &mut batch);
        batch
    }
}

/// What a reaper does once a child exited, or the signal is no longer heard of.
pub open spec fn signalled_step<P>(
    before: UnixReaper<P>,
    after: UnixReaper<P>,
    signal: Result<(), IoError>,
    r: ReaperStep<P>,
) -> bool {
    &&& after.by_threads() == (before.by_threads() || signal is Err)
    &&& after.kept().len() == 0
    &&& match signal {
        Ok(_) => r matches ReaperStep::TryWait(batch) && batch@ == before.kept(),
        Err(_) => r matches ReaperStep::Background(batch) && batch@ == before.kept(),
    }
}

/// What a reaper does with the answer of a child that was asked for its status.
pub open spec fn tried_step<P, S>(
    before: UnixReaper<P>,
    after: UnixReaper<P>,
    process: P,
    tried: Result<Option<S>, IoError>,
    r: Option<(P, Result<S, IoError>)>,
) -> bool {
    &&& !after.by_threads()
    &&& match triage_spec(tried) {
        Triage::Deliver(result) => r == Some((process, result)) && after.kept() == before.kept(),
        Triage::Watch => r is None && after.kept() == before.kept().push(process),
    }
}

/// The child that is told of.
pub open spec fn told_by<P, S>(told: Option<(P, Result<S, IoError>)>) -> Seq<P> {
    match told {
        Some((process, _)) => seq![process],
        None => seq![],
    }
}

/// A call of a reaper neither loses nor doubles a child: those that were kept and
/// those that it was given are those that are kept now and those that it handed
/// out.
pub open spec fn conserves<P>(
    before: UnixReaper<P>,
    after: UnixReaper<P>,
    given: Seq<P>,
    returned: Seq<P>,
) -> bool {
    (before.kept() + given).to_multiset() == (after.kept() + returned).to_multiset()
}

/// The members of all sequences together.
pub open spec fn members<P>(groups: Seq<Seq<P>>) -> Multiset<P>
    decreases groups.len(),
{
    if groups.len() == 0 {
        Multiset::empty()
    } else {
        members(groups.drop_last()).add(groups.last().to_multiset())
    }
}

proof fn lemma_conserved<P>(kept: Seq<P>)
    ensures
        kept + Seq::<P>::empty() == kept,
        forall|none: Seq<P>| none.len() == 0 ==> #[trigger] (none + kept) == kept,
{
    assert(kept + Seq::<P>::empty() =~= kept);
    assert forall|none: Seq<P>| none.len() == 0 implies #[trigger] (none + kept) == kept by {
        assert(none + kept =~= kept);
    }
}

/// No child is lost and none is doubled: over any run of calls of a reaper, the
/// children that were kept at the start and all that it was given are those that
/// are kept at the end and all that it handed out.
pub proof fn no_child_is_lost<P>(
    states: Seq<UnixReaper<P>>,
    given: Seq<Seq<P>>,
    returned: Seq<Seq<P>>,
)
    requires
        states.len() == given.len() + 1,
        returned.len() == given.len(),
        forall|i: int|
            0 <= i < given.len() ==> conserves(
                states[i],
                states[i + 1],
                #[trigger] given[i],
                returned[i],
            ),
    ensures
        states.first().kept().to_multiset().add(members(given))
            == states.last().kept().to_multiset().add(members(returned)),
    decreases given.len(),
{
    if given.len() > 0 {
        let last = given.len() - 1;
        assert forall|i: int| 0 <= i < last implies conserves(
            states.drop_last()[i],
            states.drop_last()[i + 1],
            #[trigger] given.drop_last()[i],
            returned.drop_last()[i],
        ) by {
            assert(given.drop_last()[i] == given[i]);
        }
        no_child_is_lost(states.drop_last(), given.drop_last(), returned.drop_last());
        assert(conserves(states[last], states[last + 1], given[last], returned[last]));
        vstd::seq_lib::lemma_multiset_commutative(states[last].kept(), given[last]);
        vstd::seq_lib::lemma_multiset_commutative(states[last + 1].kept(), returned[last]);
        assert(states.first().kept().to_multiset().add(members(given))
            =~= states.first().kept().to_multiset().add(members(given.drop_last())).add(
            given.last().to_multiset(),
        ));
        assert(states.last().kept().to_multiset().add(members(returned))
            =~= states[last].kept().to_multiset().add(given.last().to_multiset()).add(
            members(returned.drop_last()),
        ));
    }
}

/// A rescan loses no child and tells of none twice: once a signal came and every
/// child that was kept has been asked in turn, each of them is either still kept or
/// told of. Where all of them run on, they stay in their order.
pub proof fn rescans_lose_no_child<P, S>(
    before: UnixReaper<P>,
    batch: Vec<P>,
    states: Seq<UnixReaper<P>>,
    answers: Seq<Result<Option<S>, IoError>>,
    told: Seq<Option<(P, Result<S, IoError>)>>,
)
    requires
        states.len() == batch@.len() + 1,
        answers.len() == batch@.len(),
        told.len() == batch@.len(),
        signalled_step(before, states.first(), Ok(()), ReaperStep::TryWait(batch)),
        forall|i: int|
            0 <= i < batch@.len() ==> tried_step(
                states[i],
                states[i + 1],
                batch@[i],
                #[trigger] answers[i],
                told[i],
            ),
    ensures
        before.kept().to_multiset() == states.last().kept().to_multiset().add(
            members(told.map_values(|r: Option<(P, Result<S, IoError>)>| told_by(r))),
        ),
        (forall|i: int| 0 <= i < batch@.len() ==> #[trigger] answers[i] == Ok::<
            Option<S>,
            IoError,
        >(None)) ==> states.last().kept() == before.kept(),
{
    lemma_asked(batch@, states, answers, told);
    assert(states.first().kept() =~= seq![]);
    assert(seq![] + batch@ =~= batch@);
}

/// The answers of the children in `batch`, one after the other.
proof fn lemma_asked<P, S>(
    batch: Seq<P>,
    states: Seq<UnixReaper<P>>,
    answers: Seq<Result<Option<S>, IoError>>,
    told: Seq<Option<(P, Result<S, IoError>)>>,
)
    requires
        states.len() == batch.len() + 1,
        answers.len() == batch.len(),
        told.len() == batch.len(),
        forall|i: int|
            0 <= i < batch.len() ==> tried_step(
                states[i],
                states[i + 1],
                batch[i],
                #[trigger] answers[i],
                told[i],
            ),
    ensures
        (states.first().kept() + batch).to_multiset() == states.last().kept().to_multiset().add(
            members(told.map_values(|r: Option<(P, Result<S, IoError>)>| told_by(r))),
        ),
        (forall|i: int| 0 <= i < batch.len() ==> #[trigger] answers[i] == Ok::<
            Option<S>,
            IoError,
        >(None)) ==> states.last().kept() == states.first().kept() + batch,
    decreases batch.len(),
{
    broadcast use vstd::seq_lib::group_to_multiset_ensures;

    let start = states.first().kept();
    let children = told.map_values(|r: Option<(P, Result<S, IoError>)>| told_by(r));
    if batch.len() == 0 {
        assert(start + batch =~= start);
        assert(start.to_multiset().add(members(children)) =~= start.to_multiset());
    } else {
        let last = batch.len() - 1;
        let fewer = batch.drop_last();
        assert forall|i: int| 0 <= i < last implies tried_step(
            states.drop_last()[i],
            states.drop_last()[i + 1],
            fewer[i],
            #[trigger] answers.drop_last()[i],
            told.drop_last()[i],
        ) by {
            assert(tried_step(states[i], states[i + 1], batch[i], answers[i], told[i]));
        }
        lemma_asked(fewer, states.drop_last(), answers.drop_last(), told.drop_last());
        let earlier = told.drop_last().map_values(
            |r: Option<(P, Result<S, IoError>)>| told_by(r),
        );
        assert(children.drop_last() =~= earlier);
        assert(tried_step(states[last], states[last + 1], batch[last], answers[last], told[last]));
        assert(start + batch =~= (start + fewer).push(batch[last]));
        assert(Seq::<P>::empty().push(batch[last]) =~= seq![batch[last]]);
        assert((start + batch).to_multiset() =~= states.last().kept().to_multiset().add(
            members(children),
        ));
        if forall|i: int| 0 <= i < batch.len() ==> #[trigger] answers[i] == Ok::<
            Option<S>,
            IoError,
        >(None) {
            assert forall|i: int| 0 <= i < fewer.len() implies #[trigger] answers.drop_last()[i]
                == Ok::<Option<S>, IoError>(None) by {
                assert(answers[i] == Ok::<Option<S>, IoError>(None));
            }
            assert(answers[last] == Ok::<Option<S>, IoError>(None));
        }
    }
}

/// A wait that the system makes for a child. `M` is the child with whoever asked
/// for it, `W` what the system knows the wait by.
pub struct WaitContext<M, W> {
    message: Option<M>,
    wait_handle: Option<W>,
}

impl<M, W> WaitContext<M, W> {
    pub closed spec fn waiting(self) -> Option<M> {
        self.message
    }

    pub closed spec fn registration(self) -> Option<W> {
        self.wait_handle
    }

    pub fn new(message: M) -> (r: Self)
        ensures
            r.waiting() == Some(message),
            r.registration() is None,
    {
        WaitContext { message: Some(message), wait_handle: None }
    }

    /// Take in the outcome of registering the wait. Where that failed, the child
    /// comes back for a thread of its own to wait for it.
    pub fn registered(&mut self, outcome: Result<W, IoError>) -> (background: Option<M>)
        ensures
            match outcome {
                Ok(handle) => {
                    &&& background is None
                    &&& final(self).registration() == Some(handle)
                    &&& final(self).waiting() == old(self).waiting()
                },
                Err(_) => {
                    &&& background == old(self).waiting()
                    &&& final(self).registration() == old(self).registration()
                    &&& final(self).waiting() is None
                },
            },
    {
        match outcome {
            Ok(handle) => {
                self.wait_handle = Some(handle);
                None
            },
            Err(_) => self.message.take(),
        }
    }

    /// What is to be unregistered when the last holder of the context lets go.
    pub fn release(&mut self) -> (r: Option<W>)
        ensures
            r == old(self).registration(),
            final(self).registration() is None,
            final(self).waiting() == old(self).waiting(),
    {
        self.wait_handle.take()
    }

    /// The child with whoever asked for it, for the callback.
    pub fn message_mut(&mut self) -> (r: Option<&mut M>)
        ensures
            match r {
                Some(message) => old(self).waiting() == Some(*message) && final(self).waiting()
                    == Some(*final(message)),
                None => old(self).waiting() is None && final(self).waiting() is None,
            },
            final(self).registration() == old(self).registration(),
    {
        self.message.as_mut()
    }
}

/// A child that was asked is told of exactly where it is over or cannot be asked, with its own status or
/// error; one that runs on is kept, and no other is touched.
pub proof fn children_are_told_of_when_they_are_over<P, S>(
    before: UnixReaper<P>,
    after: UnixReaper<P>,
    process: P,
    tried: Result<Option<S>, IoError>,
    r: Option<(P, Result<S, IoError>)>,
    t: Triage<S>,
)
    requires
        exists|it: &mut UnixReaper<P>|
            *it == before && *final(it) == after && #[trigger] call_ensures(
                UnixReaper::<P>::tried::<S>,
                (it, process, tried),
                r,
            ),
        call_ensures(triage::<S>, (tried,), t),
    ensures
        r is None <==> (tried matches Ok(status) && status is None),
        tried matches Ok(Some(status)) ==> r == Some((process, Ok::<S, IoError>(status))) && t
            == Triage::Deliver(Ok::<S, IoError>(status)),
        tried matches Err(error) ==> r == Some((process, Err::<S, IoError>(error))) && t
            == Triage::<
            S,
        >::Deliver(Err(error)),
        t is Watch <==> r is None,
        r is None ==> after.kept().len() == before.kept().len() + 1 && after.kept().last()
            == process
            && after.kept().drop_last() == before.kept(),
        r is Some ==> after.kept() == before.kept(),
        !after.by_threads(),
{
    if r is None {
        assert(after.kept().drop_last() =~= before.kept());
    }
}

/// Each signal has every child that is kept asked again; once the signal is lost, all of them and every
/// later one go to threads of their own. A child that comes is asked first, and all that are kept are
/// handed on in the end.
pub proof fn every_kept_child_is_asked_or_handed_on<P>(
    before: UnixReaper<P>,
    signalled: UnixReaper<P>,
    came: UnixReaper<P>,
    closed: UnixReaper<P>,
    signal: Result<(), IoError>,
    process: P,
    r: ReaperStep<P>,
    r2: ReaperStep<P>,
    r3: ReaperStep<P>,
    listening: Result<(), IoError>,
    fresh: UnixReaper<P>,
)
    requires
        exists|it: &mut UnixReaper<P>|
            *it == before && *final(it) == signalled && #[trigger] call_ensures(
                UnixReaper::<P>::signalled,
                (it, signal),
                r,
            ),
        exists|it: &mut UnixReaper<P>|
            *it == before && *final(it) == came && #[trigger] call_ensures(
                UnixReaper::<P>::received,
                (it, Some(process)),
                r2,
            ),
        exists|it: &mut UnixReaper<P>|
            *it == before && *final(it) == closed && #[trigger] call_ensures(
                UnixReaper::<P>::received,
                (it, None),
                r3,
            ),
        call_ensures(UnixReaper::<P>::new, (listening,), fresh),
    ensures
        signal is Ok ==> (r matches ReaperStep::TryWait(batch) && batch@ == before.kept()),
        signal is Err ==> (r matches ReaperStep::Background(batch) && batch@ == before.kept()),
        signalled.kept().len() == 0 && (signalled.by_threads() <==> before.by_threads()
            || signal is Err),
        before.by_threads() ==> (r2 matches ReaperStep::Background(batch) && batch@.len() == 1
            && batch@[0]
            == process),
        !before.by_threads() ==> (r2 matches ReaperStep::TryWait(batch) && batch@.len() == 1
            && batch@[0]
            == process),
        came.kept() == before.kept(),
        r3 matches ReaperStep::Stop(batch) && batch@ == before.kept(),
        closed.kept().len() == 0,
        fresh.kept().len() == 0 && (fresh.by_threads() <==> listening is Err),
{
}

/// A child that is dropped needs nobody only where it is known to have exited; else a worker waits for
/// that very child, or whoever could start none does.
pub proof fn dropped_children_are_waited_for<C, S>(
    child: C,
    tried: Result<Option<S>, IoError>,
    r: DropStep<C>,
    made: PendingChild<C>,
    after: PendingChild<C>,
    started: Result<(), IoError>,
    here: Option<C>,
    taken: Option<C>,
    empty: PendingChild<C>,
)
    requires
        call_ensures(dropped::<C, S>, (child, tried), r),
        call_ensures(PendingChild::<C>::new, (child,), made),
        exists|it: &mut PendingChild<C>|
            *it == made && *final(it) == after && #[trigger] call_ensures(
                PendingChild::<C>::reap_with_worker,
                (it, started),
                here,
            ),
        exists|it: &mut PendingChild<C>|
            *it == made && *final(it) == empty && #[trigger] call_ensures(
                PendingChild::<C>::take,
                (it,),
                taken,
            ),
    ensures
        r is Done <==> (tried matches Ok(Some(_))),
        r matches DropStep::StartWorker(own) ==> own == child,
        started is Err ==> here == Some(child) && after.held() is None,
        started is Ok ==> here is None && after.held() == Some(child),
        taken == Some(child) && empty.held() is None,
{
}

/// A wait goes to the reaper of the loop where that takes it, else with the same child to a thread; it
/// comes to the status that was sent, or to an error where nobody is left to send one.
pub proof fn waits_go_to_whoever_takes_them<P, S>(
    offered: Result<(), P>,
    r: WaitRoute<P>,
    sent: Option<Result<S, IoError>>,
    status: Result<S, IoError>,
)
    requires
        call_ensures(route_wait::<P>, (offered,), r),
        call_ensures(wait_result::<S>, (sent,), status),
    ensures
        r is Reaper <==> offered is Ok,
        offered matches Err(message) ==> r == WaitRoute::Background(message),
        sent matches Some(own) ==> status == own,
        sent is None ==> (status matches Err(IoError::Message(kind, _)) && kind is Other),
{
}

/// A wait by a descriptor gives the status that it reaped, and lets the child go; one that failed leaves
/// that child to a thread. Only a missing call, by code 38, says that there are no such descriptors.
pub proof fn waits_by_descriptor_reap_once<C>(
    child: ReapChild<C>,
    waited: Result<i32, IoError>,
    r: PidfdOutcome<C>,
    opened: Result<(), IoError>,
    there: bool,
)
    requires
        call_ensures(pidfd_finished::<C>, (child, waited), r),
        call_ensures(pidfd_available, (opened,), there),
    ensures
        waited matches Ok(status) ==> (r matches PidfdOutcome::Deliver(own) && own == status),
        waited is Err ==> (r matches PidfdOutcome::Background(own) && own == child),
        there <==> !(opened matches Err(IoError::Os(_, code)) && code == 38),
{
}

/// A child is held until it is taken, once.
pub proof fn held_children_are_taken_once<C>(
    child: C,
    made: ReapChild<C>,
    empty: ReapChild<C>,
    still: ReapChild<C>,
    first: Option<C>,
    second: Option<C>,
)
    requires
        call_ensures(ReapChild::<C>::new, (child,), made),
        exists|it: &mut ReapChild<C>|
            *it == made && *final(it) == empty && #[trigger] call_ensures(
                ReapChild::<C>::take,
                (it,),
                first,
            ),
        exists|it: &mut ReapChild<C>|
            *it == empty && *final(it) == still && #[trigger] call_ensures(
                ReapChild::<C>::take,
                (it,),
                second,
            ),
    ensures
        made.held() == Some(child),
        first == Some(child) && second is None && empty.held() is None,
{
}

/// A wait that was registered keeps its child and what it is known by, which is given up once; one that
/// could not be hands its child back.
pub proof fn registered_waits_keep_their_child<M, W>(
    message: M,
    made: WaitContext<M, W>,
    after: WaitContext<M, W>,
    released: WaitContext<M, W>,
    outcome: Result<W, IoError>,
    background: Option<M>,
    known: Option<W>,
)
    requires
        call_ensures(WaitContext::<M, W>::new, (message,), made),
        exists|it: &mut WaitContext<M, W>|
            *it == made && *final(it) == after && #[trigger] call_ensures(
                WaitContext::<M, W>::registered,
                (it, outcome),
                background,
            ),
        exists|it: &mut WaitContext<M, W>|
            *it == after && *final(it) == released && #[trigger] call_ensures(
                WaitContext::<M, W>::release,
                (it,),
                known,
            ),
    ensures
        made.waiting() == Some(message) && made.registration() is None,
        outcome matches Ok(wait) ==> background is None && after.waiting() == Some(message) && known
            == Some(wait),
        outcome is Err ==> background == Some(message) && after.waiting() is None && known is None,
        released.registration() is None && released.waiting() == after.waiting(),
{
}

/// A child, and one that is waited for, can be asked while it is held, and only then.
pub proof fn held_children_can_be_asked<C, M, W>(
    before: ReapChild<C>,
    after: ReapChild<C>,
    r: Option<&mut C>,
    wait: WaitContext<M, W>,
    wait2: WaitContext<M, W>,
    r2: Option<&mut M>,
)
    requires
        exists|it: &mut ReapChild<C>|
            *it == before && *final(it) == after && #[trigger] call_ensures(
                ReapChild::<C>::child_mut,
                (it,),
                r,
            ),
        exists|it: &mut WaitContext<M, W>|
            *it == wait && *final(it) == wait2 && #[trigger] call_ensures(
                WaitContext::<M, W>::message_mut,
                (it,),
                r2,
            ),
    ensures
        r is Some <==> before.held() is Some,
        r matches Some(child) ==> before.held() == Some(*child) && after.held()
            == Some(*final(child)),
        r2 is Some <==> wait.waiting() is Some,
        r2 matches Some(message) ==> wait.waiting() == Some(*message) && wait2.waiting() == Some(
            *final(message),
        ),
        wait2.registration() == wait.registration(),
{
}

} // verus!
