//! Child processes and their standard streams.
//!
//! Work that would block is handed to a worker together with what it works on.
//! What was handed over comes back with the result, or where the worker could
//! not be had.

pub mod reaper;

use vstd::prelude::*;

use crate::error::{ErrorKind, IoError};

verus! {

pub open spec fn stdio_closed() -> IoError {
    IoError::Message(ErrorKind::BrokenPipe, "child stdio is closed")
}

pub open spec fn command_consumed() -> IoError {
    IoError::Message(ErrorKind::InvalidInput, "command has been consumed")
}

pub open spec fn child_consumed() -> IoError {
    IoError::Message(ErrorKind::InvalidInput, "child process has been consumed")
}

pub open spec fn blocking_pool_failed() -> IoError {
    IoError::Message(ErrorKind::Other, "can't spawn blocking task for process I/O")
}

/// The error of a stream that was given away.
pub fn stdio_closed_error() -> (r: IoError)
    ensures
        r == stdio_closed(),
{
    IoError::Message(ErrorKind::BrokenPipe, "child stdio is closed")
}

/// The error of a command that was given away.
pub fn command_consumed_error() -> (r: IoError)
    ensures
        r == command_consumed(),
{
    IoError::Message(ErrorKind::InvalidInput, "command has been consumed")
}

/// The error of a child that was given away.
pub fn child_consumed_error() -> (r: IoError)
    ensures
        r == child_consumed(),
{
    IoError::Message(ErrorKind::InvalidInput, "child process has been consumed")
}

/// The error of work that no worker did.
pub fn blocking_pool_io_error() -> (r: IoError)
    ensures
        r == blocking_pool_failed(),
{
    IoError::Message(ErrorKind::Other, "can't spawn blocking task for process I/O")
}

/// What work that was handed to a worker comes to: its result, or the error of
/// work that no worker did.
pub open spec fn offload_outcome<R>(worked: Option<Result<R, IoError>>) -> Result<R, IoError> {
    match worked {
        Some(result) => result,
        None => Err(blocking_pool_failed()),
    }
}

pub fn offload_result<R>(worked: Option<Result<R, IoError>>) -> (r: Result<R, IoError>)
    ensures
        r == offload_outcome(worked),
{
    match worked {
        Some(result) => result,
        None => Err(blocking_pool_io_error()),
    }
}

/// How a stream of a child is read or written: through a handle `H` that is
/// registered with a driver, or by calls that block.
pub enum ChildIo<H> {
    Async(H),
    Blocking,
}

/// What setting up a stream of a child leads to.
pub enum ChildIoStep<H> {
    Ready(ChildIo<H>),
    /// Make the descriptor blocking or not, and take in the outcome.
    SetNonblocking { handle: H, nonblocking: bool },
}

/// Set up a stream of a child. `registered` is the outcome of registering it with
/// the driver, where there is one, with whether the handle uses completions.
/// Where a stream cannot be registered, calls that block are made.
pub fn make_child_io<H>(registered: Option<Result<(H, bool), IoError>>) -> (r: ChildIoStep<H>)
    ensures
        r == match registered {
            Some(Ok((handle, completion))) => ChildIoStep::SetNonblocking {
                handle,
                nonblocking: !completion,
            },
            _ => ChildIoStep::Ready(ChildIo::Blocking),
        },
{
    match registered {
        Some(Ok((handle, completion))) => ChildIoStep::SetNonblocking {
            handle,
            nonblocking: !completion,
        },
        _ => ChildIoStep::Ready(ChildIo::Blocking),
    }
}

/// Take in the outcome of changing the descriptor: where that failed, the
/// registration is given up.
pub fn child_io_configured<H>(handle: H, configured: Result<(), IoError>) -> (r: Result<
    ChildIo<H>,
    IoError,
>)
    ensures
        r == match configured {
            Ok(_) => Ok::<ChildIo<H>, IoError>(ChildIo::Async(handle)),
            Err(error) => Err(error),
        },
{
    match configured {
        Ok(_) => Ok(ChildIo::Async(handle)),
        Err(error) => Err(error),
    }
}

/// A standard stream of a child. `S` is the stream itself.
pub struct ChildStream<S, H> {
    pub inner: Option<S>,
    pub io: ChildIo<H>,
}

/// The standard input of a child.
pub type ChildStdin<S, H> = ChildStream<S, H>;

/// The standard output of a child.
pub type ChildStdout<S, H> = ChildStream<S, H>;

/// The standard error of a child.
pub type ChildStderr<S, H> = ChildStream<S, H>;

/// How a transfer on a stream goes on.
pub enum StreamStep<S> {
    Done(Result<usize, IoError>),
    /// Submit the operation on the registered handle.
    Submit,
    /// Let a worker make the call, and take the stream back from it.
    Offload(S),
    /// Make the call here.
    Call,
}

impl<S, H> ChildStream<S, H> {
    /// A stream with the way in which it is read or written.
    pub fn from_std(inner: S, io: ChildIo<H>) -> (r: Self)
        ensures
            r.inner == Some(inner),
            r.io == io,
    {
        ChildStream { inner: Some(inner), io }
    }

    /// Give the registration up, before the stream closes its descriptor. A
    /// second time there is none.
    pub fn drop_handle(&mut self) -> (r: ChildIo<H>)
        ensures
            r == old(self).io,
            final(self).io is Blocking,
            final(self).inner == old(self).inner,
    {
        let mut io: ChildIo<H> = ChildIo::Blocking;
        core::mem::swap(&mut self.io, &mut io);
        io
    }

    /// The stream itself, once its registration was given up.
    pub fn into_std(self) -> (r: S)
        requires
            self.inner is Some,
        ensures
            self.inner == Some(r),
    {
        let stream = self;
        stream.inner.unwrap()
    }

    /// Begin a transfer of `len` bytes, given whether there is a driver here.
    pub fn begin(&mut self, len: usize, driver: bool) -> (r: StreamStep<S>)
        ensures
            final(self).io == old(self).io,
            r == stream_step(old(self).inner, old(self).io is Async, len, driver),
            final(self).inner == if r is Offload {
                None
            } else {
                old(self).inner
            },
    {
        if len == 0 {
            return StreamStep::Done(Ok(0));
        }
        self.route(driver)
    }

    /// Begin to flush, given whether there is a driver here. A registered handle
    /// holds nothing back.
    pub fn begin_flush(&mut self, driver: bool) -> (r: StreamStep<S>)
        ensures
            final(self).io == old(self).io,
            r == if old(self).io is Async {
                StreamStep::Done(Ok(0))
            } else {
                stream_step(old(self).inner, false, 1, driver)
            },
            final(self).inner == if r is Offload {
                None
            } else {
                old(self).inner
            },
    {
        if let ChildIo::Async(_) = &self.io {
            return StreamStep::Done(Ok(0));
        }
        self.route(driver)
    }

    fn route(&mut self, driver: bool) -> (r: StreamStep<S>)
        ensures
            final(self).io == old(self).io,
            r == stream_step(old(self).inner, old(self).io is Async, 1, driver),
            final(self).inner == if r is Offload {
                None
            } else {
                old(self).inner
            },
    {
        if let ChildIo::Async(_) = &self.io {
            return StreamStep::Submit;
        }
        if self.inner.is_none() {
            return StreamStep::Done(Err(stdio_closed_error()));
        }
        if driver {
            match self.inner.take() {
                Some(inner) => StreamStep::Offload(inner),
                None => StreamStep::Done(Err(stdio_closed_error())),
            }
        } else {
            StreamStep::Call
        }
    }

    /// Take the stream back from a worker, with the result of the transfer where
    /// the worker did it.
    pub fn offloaded(&mut self, inner: S, worked: Option<Result<usize, IoError>>) -> (r: Result<
        usize,
        IoError,
    >)
        ensures
            r == offload_outcome(worked),
            final(self).inner == Some(inner),
            final(self).io == old(self).io,
    {
        self.inner = Some(inner);
        offload_result(worked)
    }
}

/// How a transfer on a stream goes on.
pub open spec fn stream_step<S>(
    inner: Option<S>,
    registered: bool,
    len: usize,
    driver: bool,
) -> StreamStep<S> {
    if len == 0 {
        StreamStep::Done(Ok(0))
    } else if registered {
        StreamStep::Submit
    } else {
        match inner {
            None => StreamStep::Done(Err(stdio_closed())),
            Some(stream) => if driver {
                StreamStep::Offload(stream)
            } else {
                StreamStep::Call
            },
        }
    }
}

/// A child process. `C` is the process itself, `I` and `O` its streams. The
/// process is held until it is handed to someone who reaps it.
pub struct Child<C, I, O> {
    pub inner: Option<C>,
    pub id: u32,
    pub stdin: Option<I>,
    pub stdout: Option<O>,
    pub stderr: Option<O>,
}

/// What setting up a stream of a child comes to: the stream, where there is one,
/// or the error.
pub open spec fn attached<S>(stream: Option<Result<S, IoError>>) -> (Option<S>, Result<(), IoError>) {
    match stream {
        Some(Ok(stream)) => (Some(stream), Ok(())),
        Some(Err(error)) => (None, Err(error)),
        None => (None, Ok(())),
    }
}

fn attach<S>(stream: Option<Result<S, IoError>>) -> (r: (Option<S>, Result<(), IoError>))
    ensures
        r == attached(stream),
{
    match stream {
        Some(Ok(stream)) => (Some(stream), Ok(())),
        Some(Err(error)) => (None, Err(error)),
        None => (None, Ok(())),
    }
}

impl<C, I, O> Child<C, I, O> {
    /// A child without streams. It holds the process before any stream is set up,
    /// so that one that fails to be leaves no process behind that nobody reaps.
    pub fn from_std(child: C, id: u32) -> (r: Self)
        ensures
            r == (Child::<C, I, O> {
                inner: Some(child),
                id,
                stdin: None,
                stdout: None,
                stderr: None,
            }),
    {
        Child { inner: Some(child), id, stdin: None, stdout: None, stderr: None }
    }

    /// Take in the standard input, where the child was given one.
    pub fn attach_stdin(&mut self, stream: Option<Result<I, IoError>>) -> (r: Result<(), IoError>)
        ensures
            r == attached(stream).1,
            *final(self) == (Child { stdin: attached(stream).0, ..*old(self) }),
    {
        let (stream, outcome) = attach(stream);
        self.stdin = stream;
        outcome
    }

    /// Take in the standard output, where the child was given one.
    pub fn attach_stdout(&mut self, stream: Option<Result<O, IoError>>) -> (r: Result<(), IoError>)
        ensures
            r == attached(stream).1,
            *final(self) == (Child { stdout: attached(stream).0, ..*old(self) }),
    {
        let (stream, outcome) = attach(stream);
        self.stdout = stream;
        outcome
    }

    /// Take in the standard error, where the child was given one.
    pub fn attach_stderr(&mut self, stream: Option<Result<O, IoError>>) -> (r: Result<(), IoError>)
        ensures
            r == attached(stream).1,
            *final(self) == (Child { stderr: attached(stream).0, ..*old(self) }),
    {
        let (stream, outcome) = attach(stream);
        self.stderr = stream;
        outcome
    }

    /// The number of the process.
    pub fn id(&self) -> (r: u32)
        ensures
            r == self.id,
    {
        self.id
    }

    /// The process, to be killed or asked for its status.
    pub fn inner_mut(&mut self) -> (r: Result<&mut C, IoError>)
        ensures
            match r {
                Ok(child) => old(self).inner == Some(*child) && final(self).inner == Some(
                    *final(child),
                ),
                Err(error) => old(self).inner is None && error == child_consumed()
                    && final(self).inner is None,
            },
            final(self).id == old(self).id,
            final(self).stdin == old(self).stdin,
            final(self).stdout == old(self).stdout,
            final(self).stderr == old(self).stderr,
    {
        match self.inner.as_mut() {
            Some(child) => Ok(child),
            None => Err(child_consumed_error()),
        }
    }

    /// Give the process to someone who waits for it. Its standard input is closed
    /// first, lest it waits for more.
    pub fn begin_wait(&mut self) -> (r: Result<C, IoError>)
        ensures
            r == match old(self).inner {
                Some(child) => Ok::<C, IoError>(child),
                None => Err(child_consumed()),
            },
            final(self).inner is None,
            final(self).stdin is None,
            final(self).id == old(self).id,
            final(self).stdout == old(self).stdout,
            final(self).stderr == old(self).stderr,
    {
        self.stdin = None;
        match self.inner.take() {
            Some(child) => Ok(child),
            None => Err(child_consumed_error()),
        }
    }

    /// What is left to be reaped of a child that is dropped. Its standard input
    /// is closed first.
    pub fn release(&mut self) -> (r: Option<C>)
        ensures
            r == old(self).inner,
            final(self).inner is None,
            final(self).stdin is None,
            final(self).id == old(self).id,
            final(self).stdout == old(self).stdout,
            final(self).stderr == old(self).stderr,
    {
        self.stdin = None;
        self.inner.take()
    }
}

/// A command that children are spawned from. `C` is the configuration.
pub struct Command<C> {
    pub inner: Option<C>,
}

/// How running a command goes on.
pub enum RunStep<C> {
    Refused(IoError),
    /// Let a worker run it, and take the configuration back from it.
    Offload(C),
    /// Run it here.
    Call,
}

/// How running a command goes on.
pub open spec fn run_step<C>(inner: Option<C>, driver: bool) -> RunStep<C> {
    match inner {
        Some(command) => if driver {
            RunStep::Offload(command)
        } else {
            RunStep::Call
        },
        None => RunStep::Refused(command_consumed()),
    }
}

impl<C> Command<C> {
    pub fn new(inner: C) -> (r: Self)
        ensures
            r.inner == Some(inner),
    {
        Command { inner: Some(inner) }
    }

    /// The configuration, to spawn a child from.
    pub fn spawn(&mut self) -> (r: Result<&mut C, IoError>)
        ensures
            match r {
                Ok(command) => old(self).inner == Some(*command) && final(self).inner == Some(
                    *final(command),
                ),
                Err(error) => old(self).inner is None && error == command_consumed()
                    && final(self).inner is None,
            },
    {
        match self.inner.as_mut() {
            Some(command) => Ok(command),
            None => Err(command_consumed_error()),
        }
    }

    /// The configuration, to be changed.
    pub fn as_std(&mut self) -> (r: &mut C)
        requires
            old(self).inner is Some,
        ensures
            old(self).inner == Some(*r),
            final(self).inner == Some(*final(r)),
    {
        self.inner.as_mut().unwrap()
    }

    /// The configuration itself.
    pub fn into_std(self) -> (r: C)
        requires
            self.inner is Some,
        ensures
            self.inner == Some(r),
    {
        self.inner.unwrap()
    }

    /// Begin to run the command to its end, given whether there is a driver here.
    /// With one, a worker runs it, and the command stays consumed until the
    /// configuration comes back. A consumed command is refused, with a driver or
    /// without.
    pub fn begin_run(&mut self, driver: bool) -> (r: RunStep<C>)
        ensures
            r == run_step(old(self).inner, driver),
            final(self).inner == if r is Offload {
                None
            } else {
                old(self).inner
            },
    {
        if self.inner.is_none() {
            return RunStep::Refused(command_consumed_error());
        }
        if !driver {
            return RunStep::Call;
        }
        match self.inner.take() {
            Some(command) => RunStep::Offload(command),
            None => RunStep::Refused(command_consumed_error()),
        }
    }

    /// Take the configuration back from a worker, with what the run came to where
    /// the worker did it.
    pub fn offloaded<R>(&mut self, inner: C, worked: Option<Result<R, IoError>>) -> (r: Result<
        R,
        IoError,
    >)
        ensures
            r == offload_outcome(worked),
            final(self).inner == Some(inner),
    {
        self.inner = Some(inner);
        offload_result(worked)
    }
}

/// A child whose streams are set up stays to be reaped, whichever of them fails.
pub proof fn failed_streams_leave_the_child_to_be_reaped<C, I, O>(
    child: Child<C, I, O>,
    stdin: Option<Result<I, IoError>>,
    stdout: Option<Result<O, IoError>>,
    stderr: Option<Result<O, IoError>>,
)
    ensures
        ({
            let first = Child { stdin: attached(stdin).0, ..child };
            let second = Child { stdout: attached(stdout).0, ..first };
            let third = Child { stderr: attached(stderr).0, ..second };
            &&& first.inner == child.inner
            &&& second.inner == child.inner
            &&& third.inner == child.inner
            &&& attached(stdin).1 is Err ==> first.stdin is None
            &&& attached(stdout).1 is Err ==> second.stdout is None
            &&& attached(stderr).1 is Err ==> third.stderr is None
        }),
{
}

/// Running a command by a worker, seen from the outside: it was begun, and the
/// worker gave back what it was given.
pub open spec fn ran_by_worker<C, R>(
    before: Command<C>,
    step: RunStep<C>,
    worked: Option<Result<R, IoError>>,
    result: Result<R, IoError>,
    after: Command<C>,
) -> bool {
    &&& step == run_step(before.inner, true)
    &&& step matches RunStep::Offload(command) ==> after.inner == Some(command)
    &&& result == offload_outcome(worked)
}

/// A command can be run again and again: a worker gives the configuration back
/// whatever became of the run, also where no worker could be had.
pub proof fn runs_restore_the_configuration<C, R>(
    before: Command<C>,
    step: RunStep<C>,
    worked: Option<Result<R, IoError>>,
    result: Result<R, IoError>,
    after: Command<C>,
)
    requires
        before.inner is Some,
        ran_by_worker(before, step, worked, result, after),
    ensures
        after == before,
        worked is None ==> result == Err::<R, IoError>(blocking_pool_failed()),
{
}

/// A stream can be read or written again and again: a worker gives it back
/// whatever became of the transfer, also where no worker could be had.
pub proof fn transfers_restore_the_stream<S, H>(
    before: ChildStream<S, H>,
    after: ChildStream<S, H>,
    len: usize,
    step: StreamStep<S>,
)
    requires
        step == stream_step(before.inner, before.io is Async, len, true),
        step is Offload,
        after.inner == Some(step->Offload_0),
        after.io == before.io,
    ensures
        after == before,
        len > 0,
        before.io is Blocking,
{
}

/// Work that is given up while a worker does it leaves the stream or the command
/// consumed: every later transfer is told that the stream is closed, and every
/// later run that the command has been consumed, with a driver or without.
pub proof fn abandoned_work_consumes<S, C>(
    stream: Option<S>,
    registered: bool,
    len: usize,
    command: Option<C>,
    later: usize,
    driver: bool,
)
    requires
        later > 0,
    ensures
        stream_step(stream, registered, len, true) is Offload ==> stream_step(
            None::<S>,
            registered,
            later,
            driver,
        ) == StreamStep::<S>::Done(Err(stdio_closed())),
        run_step(command, true) is Offload ==> run_step(None::<C>, driver) == RunStep::<
            C,
        >::Refused(command_consumed()),
{
}

/// A transfer of nothing is done. A registered stream submits its operation; else the stream itself goes
/// to a worker where there is a driver, and the call is made here where there is none. A stream that
/// was given away is closed.
pub proof fn transfers_take_their_way<S, H>(
    before: ChildStream<S, H>,
    after: ChildStream<S, H>,
    flushed: ChildStream<S, H>,
    len: usize,
    driver: bool,
    r: StreamStep<S>,
    f: StreamStep<S>,
)
    requires
        exists|it: &mut ChildStream<S, H>|
            *it == before && *final(it) == after && #[trigger] call_ensures(
                ChildStream::<S, H>::begin,
                (it, len, driver),
                r,
            ),
        exists|it: &mut ChildStream<S, H>|
            *it == before && *final(it) == flushed && #[trigger] call_ensures(
                ChildStream::<S, H>::begin_flush,
                (it, driver),
                f,
            ),
    ensures
        len == 0 ==> (r matches StreamStep::Done(Ok(count)) && count == 0),
        len > 0 && before.io is Async ==> r is Submit,
        len > 0 && before.io is Blocking ==> match before.inner {
            Some(stream) => if driver {
                r == StreamStep::Offload(stream) && after.inner is None
            } else {
                r is Call
            },
            None => r matches StreamStep::Done(Err(IoError::Message(kind, _)))
                && kind is BrokenPipe,
        },
        !(r is Offload) ==> after.inner == before.inner,
        before.io is Async ==> (f matches StreamStep::Done(Ok(count)) && count == 0),
        before.io is Blocking ==> match before.inner {
            Some(stream) => if driver {
                f == StreamStep::Offload(stream) && flushed.inner is None
            } else {
                f is Call
            },
            None => f matches StreamStep::Done(Err(IoError::Message(kind, _)))
                && kind is BrokenPipe,
        },
        !(f is Offload) ==> flushed.inner == before.inner,
        after.io == before.io && flushed.io == before.io,
{
}

/// A worker gives back what it was given, whatever came of the work, and its result comes out as it is;
/// where no worker could be had, that is the error.
pub proof fn workers_give_back_what_they_were_given<S, H, C, R>(
    before: ChildStream<S, H>,
    after: ChildStream<S, H>,
    stream: S,
    worked: Option<Result<usize, IoError>>,
    r: Result<usize, IoError>,
    command: Command<C>,
    command2: Command<C>,
    configuration: C,
    ran: Option<Result<R, IoError>>,
    r2: Result<R, IoError>,
)
    requires
        exists|it: &mut ChildStream<S, H>|
            *it == before && *final(it) == after && #[trigger] call_ensures(
                ChildStream::<S, H>::offloaded,
                (it, stream, worked),
                r,
            ),
        exists|it: &mut Command<C>|
            *it == command && *final(it) == command2 && #[trigger] call_ensures(
                Command::<C>::offloaded::<R>,
                (it, configuration, ran),
                r2,
            ),
    ensures
        after.inner == Some(stream) && after.io == before.io,
        command2.inner == Some(configuration),
        match worked {
            Some(result) => r == result,
            None => r matches Err(IoError::Message(kind, _)) && kind is Other,
        },
        match ran {
            Some(result) => r2 == result,
            None => r2 matches Err(IoError::Message(kind, _)) && kind is Other,
        },
{
}

/// A stream holds what it was made of, gives its registration up once, and comes out itself.
pub proof fn streams_hold_what_they_were_made_of<S, H>(
    stream: S,
    io: ChildIo<H>,
    made: ChildStream<S, H>,
    dropped: ChildStream<S, H>,
    first: ChildIo<H>,
    out: S,
)
    requires
        call_ensures(ChildStream::<S, H>::from_std, (stream, io), made),
        exists|it: &mut ChildStream<S, H>|
            *it == made && *final(it) == dropped && #[trigger] call_ensures(
                ChildStream::<S, H>::drop_handle,
                (it,),
                first,
            ),
        call_ensures(ChildStream::<S, H>::into_std, (dropped,), out),
    ensures
        made.inner == Some(stream) && made.io == io,
        first == io && dropped.io is Blocking && dropped.inner == Some(stream),
        out == stream,
{
}

/// A stream is used through its handle where it could be registered, not blocking exactly where the
/// handle is polled; else by calls that block. A descriptor that could not be changed is a failure.
pub proof fn streams_are_set_up_as_registered<H>(
    registered: Option<Result<(H, bool), IoError>>,
    r: ChildIoStep<H>,
    handle: H,
    completion: bool,
    configured: Result<(), IoError>,
    io: Result<ChildIo<H>, IoError>,
)
    requires
        call_ensures(make_child_io::<H>, (registered,), r),
        call_ensures(child_io_configured::<H>, (handle, configured), io),
    ensures
        registered == Some(Ok::<(H, bool), IoError>((handle, completion))) ==> r
            == (ChildIoStep::SetNonblocking { handle, nonblocking: !completion }),
        !(registered matches Some(Ok(_))) ==> (r matches ChildIoStep::Ready(own)
            && own is Blocking),
        io matches Ok(own) ==> own == ChildIo::Async(handle) && configured is Ok,
        io matches Err(error) ==> configured == Err::<(), IoError>(error),
{
}

/// A child keeps its process and its other streams whichever stream is set up, and whether or not that
/// fails; a stream that is there is kept.
pub proof fn children_keep_their_process<C, I, O>(
    before: Child<C, I, O>,
    a: Child<C, I, O>,
    b: Child<C, I, O>,
    c: Child<C, I, O>,
    stdin: Option<Result<I, IoError>>,
    stdout: Option<Result<O, IoError>>,
    stderr: Option<Result<O, IoError>>,
    r1: Result<(), IoError>,
    r2: Result<(), IoError>,
    r3: Result<(), IoError>,
)
    requires
        exists|it: &mut Child<C, I, O>|
            *it == before && *final(it) == a && #[trigger] call_ensures(
                Child::<C, I, O>::attach_stdin,
                (it, stdin),
                r1,
            ),
        exists|it: &mut Child<C, I, O>|
            *it == before && *final(it) == b && #[trigger] call_ensures(
                Child::<C, I, O>::attach_stdout,
                (it, stdout),
                r2,
            ),
        exists|it: &mut Child<C, I, O>|
            *it == before && *final(it) == c && #[trigger] call_ensures(
                Child::<C, I, O>::attach_stderr,
                (it, stderr),
                r3,
            ),
    ensures
        a.inner == before.inner && b.inner == before.inner && c.inner == before.inner,
        a.id == before.id && b.id == before.id && c.id == before.id,
        a.stdout == before.stdout && a.stderr == before.stderr && b.stdin == before.stdin
            && b.stderr
            == before.stderr && c.stdin == before.stdin && c.stdout == before.stdout,
        a.stdin == match stdin {
            Some(Ok(own)) => Some(own),
            _ => None,
        },
        b.stdout == match stdout {
            Some(Ok(own)) => Some(own),
            _ => None,
        },
        c.stderr == match stderr {
            Some(Ok(own)) => Some(own),
            _ => None,
        },
        r1 is Err <==> (stdin matches Some(Err(_))),
        r2 is Err <==> (stdout matches Some(Err(_))),
        r3 is Err <==> (stderr matches Some(Err(_))),
        stdin matches Some(Err(error)) ==> r1 == Err::<(), IoError>(error),
        stdout matches Some(Err(error)) ==> r2 == Err::<(), IoError>(error),
        stderr matches Some(Err(error)) ==> r3 == Err::<(), IoError>(error),
{
}

/// A process is given away once, to be waited for or reaped, after its standard input was closed; a
/// child that gave it away has been consumed.
pub proof fn processes_are_given_away_once<C, I, O>(
    process: C,
    id: u32,
    made: Child<C, I, O>,
    waited: Child<C, I, O>,
    again: Child<C, I, O>,
    dropped: Child<C, I, O>,
    r: Result<C, IoError>,
    r2: Result<C, IoError>,
    left: Option<C>,
    number: u32,
)
    requires
        call_ensures(Child::<C, I, O>::from_std, (process, id), made),
        call_ensures(Child::<C, I, O>::id, (&made,), number),
        exists|it: &mut Child<C, I, O>|
            *it == made && *final(it) == waited && #[trigger] call_ensures(
                Child::<C, I, O>::begin_wait,
                (it,),
                r,
            ),
        exists|it: &mut Child<C, I, O>|
            *it == waited && *final(it) == again && #[trigger] call_ensures(
                Child::<C, I, O>::begin_wait,
                (it,),
                r2,
            ),
        exists|it: &mut Child<C, I, O>|
            *it == made && *final(it) == dropped && #[trigger] call_ensures(
                Child::<C, I, O>::release,
                (it,),
                left,
            ),
    ensures
        made.inner == Some(process) && made.stdin is None && made.stdout is None
            && made.stderr is None
            && number == id,
        r == Ok::<C, IoError>(process) && waited.inner is None && waited.stdin is None,
        r2 matches Err(IoError::Message(kind, _)) && kind is InvalidInput,
        left == Some(process) && dropped.inner is None && dropped.stdin is None,
{
}

/// Waiting for a child, or dropping it, closes its standard input and leaves its other streams.
pub proof fn waiting_closes_the_standard_input<C, I, O>(
    before: Child<C, I, O>,
    waited: Child<C, I, O>,
    dropped: Child<C, I, O>,
    r: Result<C, IoError>,
    left: Option<C>,
)
    requires
        exists|it: &mut Child<C, I, O>|
            *it == before && *final(it) == waited && #[trigger] call_ensures(
                Child::<C, I, O>::begin_wait,
                (it,),
                r,
            ),
        exists|it: &mut Child<C, I, O>|
            *it == before && *final(it) == dropped && #[trigger] call_ensures(
                Child::<C, I, O>::release,
                (it,),
                left,
            ),
    ensures
        waited.stdin is None && dropped.stdin is None,
        waited.inner is None && dropped.inner is None,
        left == before.inner,
        r matches Ok(process) ==> before.inner == Some(process),
        r is Ok <==> before.inner is Some,
        waited.stdout == before.stdout && waited.stderr == before.stderr && dropped.stdout
            == before.stdout && dropped.stderr == before.stderr && waited.id == before.id,
{
}

/// A command is run by a worker where there is a driver, with its own configuration, and here where
/// there is none; one that was given away is refused with an error, either way.
pub proof fn commands_run_with_their_configuration<C>(
    before: Command<C>,
    after: Command<C>,
    driver: bool,
    r: RunStep<C>,
    configuration: C,
    made: Command<C>,
    out: C,
)
    requires
        exists|it: &mut Command<C>|
            *it == before && *final(it) == after && #[trigger] call_ensures(
                Command::<C>::begin_run,
                (it, driver),
                r,
            ),
        call_ensures(Command::<C>::new, (configuration,), made),
        call_ensures(Command::<C>::into_std, (made,), out),
    ensures
        before.inner matches Some(own) ==> if driver {
            r == RunStep::Offload(own) && after.inner is None
        } else {
            r is Call && after.inner == before.inner
        },
        before.inner is None ==> after.inner is None && (r matches RunStep::Refused(
            IoError::Message(kind, _),
        ) && kind is InvalidInput),
        made.inner == Some(configuration) && out == configuration,
{
}

/// The errors of what was given away, or not done, are of their kinds.
pub proof fn process_errors_are_of_their_kinds<R>(
    closed: IoError,
    command: IoError,
    child: IoError,
    pool: IoError,
    worked: Option<Result<R, IoError>>,
    r: Result<R, IoError>,
)
    requires
        call_ensures(stdio_closed_error, (), closed),
        call_ensures(command_consumed_error, (), command),
        call_ensures(child_consumed_error, (), child),
        call_ensures(blocking_pool_io_error, (), pool),
        call_ensures(offload_result::<R>, (worked,), r),
    ensures
        closed matches IoError::Message(kind, _) && kind is BrokenPipe,
        command matches IoError::Message(kind, _) && kind is InvalidInput,
        child matches IoError::Message(kind, _) && kind is InvalidInput,
        pool matches IoError::Message(kind, _) && kind is Other,
        worked matches Some(result) ==> r == result,
        worked is None ==> r == Err::<R, IoError>(pool),
{
}

/// A process, or a configuration, can be changed while it is held; one that was given away has been
/// consumed.
pub proof fn held_processes_can_be_changed<C, I, O>(
    before: Child<C, I, O>,
    after: Child<C, I, O>,
    r: Result<&mut C, IoError>,
    command: Command<C>,
    command2: Command<C>,
    r2: Result<&mut C, IoError>,
)
    requires
        exists|it: &mut Child<C, I, O>|
            *it == before && *final(it) == after && #[trigger] call_ensures(
                Child::<C, I, O>::inner_mut,
                (it,),
                r,
            ),
        exists|it: &mut Command<C>|
            *it == command && *final(it) == command2 && #[trigger] call_ensures(
                Command::<C>::spawn,
                (it,),
                r2,
            ),
    ensures
        r is Ok <==> before.inner is Some,
        r matches Ok(process) ==> before.inner == Some(*process) && after.inner
            == Some(*final(process)),
        r matches Err(error) ==> (error matches IoError::Message(kind, _) && kind is InvalidInput)
            && after.inner is None,
        r2 is Ok <==> command.inner is Some,
        r2 matches Ok(own) ==> command.inner == Some(*own) && command2.inner == Some(*final(own)),
        r2 matches Err(error) ==> (error matches IoError::Message(kind, _) && kind is InvalidInput)
            && command2.inner is None,
        after.id == before.id && after.stdin == before.stdin && after.stdout == before.stdout
            && after.stderr == before.stderr,
{
}

/// A configuration that is there can be changed.
pub proof fn configurations_can_be_changed<C>(
    before: Command<C>,
    after: Command<C>,
    seen: C,
    left: C,
)
    requires
        exists|it: &mut Command<C>, own: &mut C|
            *it == before && *final(it) == after && *own == seen && *final(own) == left
                && #[trigger] call_ensures(Command::<C>::as_std, (it,), own),
    ensures
        before.inner == Some(seen) && after.inner == Some(left),
{
}

} // verus!
