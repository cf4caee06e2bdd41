//! A service that runs tasks on a thread of its own.

use vstd::prelude::*;

use std::collections::HashMap;

use crate::error::{ErrorKind, IoError};

verus! {

broadcast use vstd::std_specs::hash::group_hash_axioms;

/// What the service is told. `F` makes the task.
pub enum Command<F> {
    Spawn { id: u64, factory: F },
    Cancel { id: u64 },
    Finished { id: u64 },
}

/// The side of the service that hands out numbers for tasks.
#[derive(Debug, Clone, Copy, PartialEq, Eq, Structural)]
pub struct Service {
    next_id: u64,
}

/// A task of the service.
#[derive(Debug, Clone, Copy, PartialEq, Eq, Structural)]
pub struct TaskHandle {
    id: u64,
}

impl TaskHandle {
    /// The number of the task.
    pub closed spec fn number(self) -> u64 {
        self.id
    }

    pub fn id(&self) -> (r: u64)
        ensures
            r == self.number(),
    {
        self.id
    }
}

impl Service {
    /// The number that the next task gets.
    pub closed spec fn next(self) -> u64 {
        self.next_id
    }

    /// Number a task and make the command that spawns it. Numbers start over once
    /// all have been used.
    pub fn spawn<F>(&mut self, factory: F) -> (r: (TaskHandle, Command<F>))
        ensures
            r.0.number() == old(self).next(),
            r.1 == (Command::Spawn { id: old(self).next(), factory }),
            final(self).next() == number_after(old(self).next(), 1),
    {
        let id: u64 = self.next_id;
        self.next_id = self.next_id.wrapping_add(1);
        (TaskHandle { id }, Command::Spawn { id, factory })
    }
}

/// The number of the task that is spawned `count` tasks after the one that has
/// the number `first`.
pub open spec fn number_after(first: u64, count: nat) -> u64 {
    ((first + count) % (u64::MAX + 1)) as u64
}

/// No two tasks have the same number, until all numbers have been used.
pub proof fn task_numbers_differ(first: u64, i: nat, j: nat)
    requires
        i < j <= i + u64::MAX,
    ensures
        number_after(first, i) != number_after(first, j),
        number_after(first, i + 1) == number_after(number_after(first, i), 1),
{
}

/// What spawning comes to once the command was sent, or was not.
pub fn spawned(task: TaskHandle, sent: Result<(), IoError>) -> (r: Result<TaskHandle, IoError>)
    ensures
        r == match sent {
            Ok(_) => Ok::<TaskHandle, IoError>(task),
            Err(_) => Err(IoError::Message(ErrorKind::BrokenPipe, "vibeio service stopped")),
        },
{
    match sent {
        Ok(_) => Ok(task),
        Err(_) => Err(IoError::Message(ErrorKind::BrokenPipe, "vibeio service stopped")),
    }
}

/// The command that cancels a task.
pub fn cancel<F>(task: TaskHandle) -> (r: Command<F>)
    ensures
        r == (Command::<F>::Cancel { id: task.number() }),
{
    Command::Cancel { id: task.id }
}

/// What starting the service comes to: `ready` is what its thread said, or `None`
/// where the thread ended without a word.
pub fn wait_for_service_ready(ready: Option<Result<(), String>>) -> (r: Result<Service, String>)
    ensures
        match ready {
            Some(Ok(_)) => r matches Ok(service) && service.next() == 1,
            Some(Err(error)) => r == Err::<Service, String>(error),
            None => r matches Err(error) && error@ == "vibeio service failed to start"@,
        },
{
    match ready {
        Some(Ok(_)) => Ok(Service { next_id: 1 }),
        Some(Err(error)) => Err(error),
        None => Err("vibeio service failed to start".to_owned()),
    }
}

/// The tasks that run in the service. `H` is a task that was spawned.
pub struct Tasks<H> {
    tasks: HashMap<u64, H>,
}

/// What a command leads to.
pub enum CommandStep<F, H> {
    /// Spawn the task, and take it in.
    Start { id: u64, factory: F },
    /// Cancel the task.
    Cancel(H),
    Done,
}

/// The tasks that are left once a command was carried out.
pub open spec fn tasks_after<F, H>(tasks: Map<u64, H>, command: Command<F>) -> Map<u64, H> {
    match command {
        Command::Spawn { .. } => tasks,
        Command::Cancel { id } => tasks.remove(id),
        Command::Finished { id } => tasks.remove(id),
    }
}

/// What a command leads to, with these tasks.
pub open spec fn command_step<F, H>(tasks: Map<u64, H>, command: Command<F>) -> CommandStep<F, H> {
    match command {
        Command::Spawn { id, factory } => CommandStep::Start { id, factory },
        Command::Cancel { id } => if tasks.contains_key(id) {
            CommandStep::Cancel(tasks[id])
        } else {
            CommandStep::Done
        },
        Command::Finished { .. } => CommandStep::Done,
    }
}

impl<H> View for Tasks<H> {
    type V = Map<u64, H>;

    closed spec fn view(&self) -> Map<u64, H> {
        self.tasks@
    }
}

impl<H> Tasks<H> {
    pub fn new() -> (r: Self)
        ensures
            r@ == Map::<u64, H>::empty(),
    {
        Tasks { tasks: HashMap::new() }
    }

    /// Carry a command out: a task that is cancelled or finished is forgotten,
    /// and only one that was not forgotten yet is cancelled.
    pub fn handle_service_command<F>(&mut self, command: Command<F>) -> (r: CommandStep<F, H>)
        ensures
            r == command_step(old(self)@, command),
            final(self)@ == tasks_after(old(self)@, command),
    {
        match command {
            Command::Spawn { id, factory } => CommandStep::Start { id, factory },
            Command::Cancel { id } => match self.tasks.remove(&id) {
                Some(handle) => CommandStep::Cancel(handle),
                None => {
                    assert(old(self)@.remove(id) =~= old(self)@);
                    CommandStep::Done
                },
            },
            Command::Finished { id } => {
                let removed = self.tasks.remove(&id);
                assert(self@ =~= old(self)@.remove(id));
                CommandStep::Done
            },
        }
    }

    /// Take in a task that was spawned. One of the same number that is still
    /// there comes back.
    pub fn started(&mut self, id: u64, handle: H) -> (replaced: Option<H>)
        ensures
            final(self)@ == old(self)@.insert(id, handle),
            replaced == if old(self)@.contains_key(id) {
                Some(old(self)@[id])
            } else {
                None
            },
    {
        self.tasks.insert(id, handle)
    }

    /// The tasks that are left when the service stops, to be cancelled.
    pub fn into_tasks(self) -> (r: HashMap<u64, H>)
        ensures
            r@ == self@,
    {
        self.tasks
    }
}

/// A task is cancelled at most once: a cancel after another one, or after the task
/// has finished, does nothing. Other tasks are not touched.
pub proof fn tasks_are_cancelled_once<F, H>(tasks: Map<u64, H>, id: u64, other: u64)
    requires
        id != other,
    ensures
        ({
            let cancel = Command::<F>::Cancel { id };
            let finished = Command::<F>::Finished { id };
            &&& command_step(tasks_after(tasks, cancel), cancel) is Done
            &&& command_step(tasks_after(tasks, finished), cancel) is Done
            &&& tasks_after(tasks_after(tasks, cancel), finished) == tasks_after(tasks, cancel)
            &&& tasks_after(tasks, cancel).contains_key(other) == tasks.contains_key(other)
            &&& tasks.contains_key(other) ==> tasks_after(tasks, cancel)[other] == tasks[other]
        }),
{
    assert(tasks.remove(id).remove(id) =~= tasks.remove(id));
}

/// A task gets the next number, which the command that spawns it and the one that cancels it carry;
/// numbers go up by one and start over in the end.
pub proof fn tasks_carry_their_number<F>(
    before: Service,
    after: Service,
    factory: F,
    r: (TaskHandle, Command<F>),
    id: u64,
    cancelled: Command<F>,
    sent: Result<(), IoError>,
    kept: Result<TaskHandle, IoError>,
)
    requires
        exists|it: &mut Service|
            *it == before && *final(it) == after && #[trigger] call_ensures(
                Service::spawn::<F>,
                (it, factory),
                r,
            ),
        call_ensures(TaskHandle::id, (&r.0,), id),
        call_ensures(cancel::<F>, (r.0,), cancelled),
        call_ensures(spawned, (r.0, sent), kept),
    ensures
        id == before.next() && r.1 == (Command::Spawn { id, factory }),
        cancelled == (Command::<F>::Cancel { id }),
        before.next() < u64::MAX ==> after.next() == before.next() + 1,
        before.next() == u64::MAX ==> after.next() == 0,
        kept matches Ok(own) ==> own == r.0,
        kept is Ok <==> sent is Ok,
        kept matches Err(error) ==> (error matches IoError::Message(kind, _) && kind is BrokenPipe),
{
}

/// The service starts with number one where its thread is ready, and fails as the thread said.
pub proof fn services_start_when_ready(
    ready: Option<Result<(), String>>,
    r: Result<Service, String>,
)
    requires
        call_ensures(wait_for_service_ready, (ready,), r),
    ensures
        r is Ok <==> (ready matches Some(Ok(_))),
        r matches Ok(service) ==> service.next() == 1,
        ready matches Some(Err(error)) ==> r == Err::<Service, String>(error),
{
}

/// A spawned task is started under its number; only a task that is there is cancelled, and it is
/// forgotten then or when it finished. No other task is touched.
pub proof fn commands_reach_their_own_task<F, H>(
    before: Tasks<H>,
    after: Tasks<H>,
    command: Command<F>,
    r: CommandStep<F, H>,
    id: u64,
    factory: F,
    other: u64,
)
    requires
        exists|it: &mut Tasks<H>|
            *it == before && *final(it) == after && #[trigger] call_ensures(
                Tasks::<H>::handle_service_command::<F>,
                (it, command),
                r,
            ),
    ensures
        command == (Command::Spawn { id, factory }) ==> r
            == (CommandStep::<F, H>::Start { id, factory })
            && after@ == before@,
        command == (Command::<F>::Cancel { id }) ==> (r matches CommandStep::Cancel(task)
            <==> before@.contains_key(id)) && !after@.contains_key(id),
        command == (Command::<F>::Cancel { id }) ==> (r matches CommandStep::Cancel(task) ==> task
            == before@[id]),
        command == (Command::<F>::Cancel { id }) && !before@.contains_key(id) ==> r is Done,
        command == (Command::<F>::Finished { id }) ==> r is Done && !after@.contains_key(id),
        command == (Command::<F>::Cancel { id }) || command
            == (Command::<F>::Finished { id }) ==> other
            != id ==> (after@.contains_key(other) <==> before@.contains_key(other)) && (
        before@.contains_key(other) ==> after@[other] == before@[other]),
{
}

/// A task that was spawned is there under its number; all that are left come out in the end.
pub proof fn started_tasks_are_kept<H>(
    before: Tasks<H>,
    after: Tasks<H>,
    fresh: Tasks<H>,
    id: u64,
    handle: H,
    replaced: Option<H>,
    other: u64,
    left: HashMap<u64, H>,
)
    requires
        exists|it: &mut Tasks<H>|
            *it == before && *final(it) == after && #[trigger] call_ensures(
                Tasks::<H>::started,
                (it, id, handle),
                replaced,
            ),
        call_ensures(Tasks::<H>::new, (), fresh),
        call_ensures(Tasks::<H>::into_tasks, (before,), left),
    ensures
        after@.contains_key(id) && after@[id] == handle,
        replaced is Some <==> before@.contains_key(id),
        replaced matches Some(task) ==> task == before@[id],
        other != id ==> (after@.contains_key(other) <==> before@.contains_key(other)) && (
        before@.contains_key(other) ==> after@[other] == before@[other]),
        !fresh@.contains_key(other),
        left@.contains_key(other) <==> before@.contains_key(other),
        before@.contains_key(other) ==> left@[other] == before@[other],
{
}

} // verus!
