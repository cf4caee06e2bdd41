//! Moving bytes from a descriptor into another without copying them.

use vstd::prelude::*;

use crate::error::IoError;
use crate::handle::{InnerRawHandle, RawOsHandle};
use crate::op::{
    completion_unsupported, no_completion, no_polling, polling_unsupported, settle, Cancelled,
    CompletionEntry, CompletionIoResult, Op, Opcode, Reply, Request, Settled, SystemCall,
};
use crate::poll::Poll;
use crate::system::System;

verus! {

/// Do not block on the pipe.
pub const SPLICE_F_NONBLOCK: u32 = 2;

/// Duplicates of the two descriptors, with their numbers. They keep the files
/// open until the completion, whatever the caller closes.
pub struct Duplicates<D> {
    pub source: D,
    pub source_fd: i32,
    pub destination: D,
    pub destination_fd: i32,
}

/// A splice. `D` is a descriptor that is closed when it is dropped; `R` is a
/// registration that watches the source.
pub struct SpliceOp<'a, D, R> {
    pub fd_in: i32,
    pub fd_out: &'a InnerRawHandle,
    pub len: usize,
    pub completion_token: Option<usize>,
    pub source_registration: Option<R>,
    pub completion_fds: Option<Duplicates<D>>,
}

/// What polling a splice hears of.
pub enum SpliceEvent<R> {
    /// The splice call returned.
    Called(Result<usize, IoError>),
    /// The source was asked, without waiting, whether it is ready.
    SourceReady(Result<bool, IoError>),
    /// The source was registered to be watched.
    SourceRegistered(Result<R, IoError>),
}

/// What polling a splice does next.
#[derive(Debug, Clone, Copy, PartialEq, Eq)]
pub enum SpliceStep {
    /// Ask the source, without waiting, whether it is ready.
    AskSource,
    /// Register a duplicate of the source to be watched.
    RegisterSource,
    /// Wait until the source can be read.
    AwaitSource,
    /// Wait until the destination can be written.
    AwaitDestination,
    Done(Result<usize, IoError>),
}

/// What a polled splice does next: where the call would block, it waits for
/// whichever end is not ready.
pub open spec fn splice_step<R>(registered: bool, event: SpliceEvent<R>) -> SpliceStep {
    match event {
        SpliceEvent::Called(Ok(count)) => SpliceStep::Done(Ok(count)),
        SpliceEvent::Called(Err(error)) => if error.would_block() {
            SpliceStep::AskSource
        } else {
            SpliceStep::Done(Err(error))
        },
        SpliceEvent::SourceReady(Ok(ready)) => if ready {
            SpliceStep::AwaitDestination
        } else if registered {
            SpliceStep::AwaitSource
        } else {
            SpliceStep::RegisterSource
        },
        SpliceEvent::SourceReady(Err(error)) => SpliceStep::Done(Err(error)),
        SpliceEvent::SourceRegistered(Ok(_)) => SpliceStep::AwaitSource,
        SpliceEvent::SourceRegistered(Err(error)) => SpliceStep::Done(Err(error)),
    }
}

impl<'a, D, R> SpliceOp<'a, D, R> {
    /// A larger length than an entry holds makes a short transfer; it never wraps
    /// to zero, which would pass for an end of the data.
    pub fn new(fd_in: i32, fd_out: &'a InnerRawHandle, len: usize) -> (r: Self)
        ensures
            r.fd_in == fd_in,
            r.fd_out == fd_out,
            r.len == if len <= u32::MAX {
                len as int
            } else {
                u32::MAX as int
            },
            r.completion_token is None,
            r.source_registration is None,
            r.completion_fds is None,
    {
        let limit: usize = u32::MAX as usize;
        SpliceOp {
            fd_in,
            fd_out,
            len: if len <= limit {
                len
            } else {
                limit
            },
            completion_token: None,
            source_registration: None,
            completion_fds: None,
        }
    }

    /// Give the operation up. One that is with its driver leaves the duplicates
    /// of its descriptors there.
    pub fn cancel(self) -> (r: Option<Cancelled<Option<Duplicates<D>>>>)
        ensures
            r == match self.completion_token {
                Some(token) => Some(
                    Cancelled { driver: self.fd_out.driver, token, storage: self.completion_fds },
                ),
                None => None,
            },
    {
        match self.completion_token {
            Some(token) => Some(
                Cancelled { driver: self.fd_out.driver, token, storage: self.completion_fds },
            ),
            None => None,
        }
    }

    /// Poll the splice step by step.
    pub fn poll_poll(&mut self, event: SpliceEvent<R>) -> (r: SpliceStep)
        ensures
            r == splice_step(old(self).source_registration is Some, event),
            final(self).source_registration == match event {
                SpliceEvent::SourceRegistered(Ok(registration)) => Some(registration),
                _ => old(self).source_registration,
            },
            final(self).fd_in == old(self).fd_in,
            final(self).fd_out == old(self).fd_out,
            final(self).len == old(self).len,
            final(self).completion_token == old(self).completion_token,
            final(self).completion_fds == old(self).completion_fds,
    {
        match event {
            SpliceEvent::Called(result) => match result {
                Ok(count) => SpliceStep::Done(Ok(count)),
                Err(error) => {
                    if error.is_would_block() {
                        SpliceStep::AskSource
                    } else {
                        SpliceStep::Done(Err(error))
                    }
                },
            },
            SpliceEvent::SourceReady(result) => match result {
                Ok(ready) => {
                    if ready {
                        SpliceStep::AwaitDestination
                    } else if self.source_registration.is_some() {
                        SpliceStep::AwaitSource
                    } else {
                        SpliceStep::RegisterSource
                    }
                },
                Err(error) => SpliceStep::Done(Err(error)),
            },
            SpliceEvent::SourceRegistered(result) => match result {
                Ok(registration) => {
                    self.source_registration = Some(registration);
                    SpliceStep::AwaitSource
                },
                Err(error) => SpliceStep::Done(Err(error)),
            },
        }
    }

    /// Whether the descriptors must be duplicated before an entry is built.
    pub fn needs_duplicates(&self) -> (r: bool)
        ensures
            r == self.completion_fds is None,
    {
        self.completion_fds.is_none()
    }

    /// Keep the duplicates for as long as the kernel may use their numbers. Where
    /// either could not be made, neither is kept.
    pub fn keep_duplicates(
        &mut self,
        source: Result<(D, i32), IoError>,
        destination: Result<(D, i32), IoError>,
    ) -> (r: Result<(), IoError>)
        ensures
            match (source, destination) {
                (Ok((from, from_fd)), Ok((to, to_fd))) => r is Ok && final(self).completion_fds
                    == Some(
                    Duplicates {
                        source: from,
                        source_fd: from_fd,
                        destination: to,
                        destination_fd: to_fd,
                    },
                ),
                (Err(error), _) => r == Err::<(), IoError>(error) && final(self).completion_fds
                    == old(self).completion_fds,
                (_, Err(error)) => r == Err::<(), IoError>(error) && final(self).completion_fds
                    == old(self).completion_fds,
            },
            final(self).fd_in == old(self).fd_in,
            final(self).fd_out == old(self).fd_out,
            final(self).len == old(self).len,
            final(self).completion_token == old(self).completion_token,
            final(self).source_registration == old(self).source_registration,
    {
        let (source, source_fd) = match source {
            Ok(duplicate) => duplicate,
            Err(error) => {
                return Err(error);
            },
        };
        let (destination, destination_fd) = match destination {
            Ok(duplicate) => duplicate,
            Err(error) => {
                return Err(error);
            },
        };
        self.completion_fds =
        Some(Duplicates { source, source_fd, destination, destination_fd });
        Ok(())
    }
}

/// A splice that would block waits for the source while the source is not ready,
/// and for the destination only once it is.
pub proof fn splice_waits_for_the_end_that_blocks<R>(registered: bool, ready: bool)
    ensures
        splice_step::<R>(registered, SpliceEvent::SourceReady(Ok(ready))) is AwaitDestination
            <==> ready,
{
}

impl<'a, D, R> Op for SpliceOp<'a, D, R> {
    type Output = usize;

    open spec fn token(&self) -> Option<usize> {
        self.completion_token
    }

    /// No result that cannot be negated.
    open spec fn admits(&self, result: i32) -> bool {
        i32::MIN < result
    }

    fn completion_token(&self) -> (r: Option<usize>) {
        self.completion_token
    }

    fn poll_call(&self) -> (r: Result<SystemCall, IoError>)
        ensures
            r == match self.fd_out.handle {
                RawOsHandle::Fd(fd) => Ok::<SystemCall, IoError>(
                    SystemCall::Splice {
                        from: self.fd_in,
                        to: fd,
                        len: self.len,
                        flags: SPLICE_F_NONBLOCK,
                    },
                ),
                _ => Err(no_polling()),
            },
    {
        match self.fd_out.handle {
            RawOsHandle::Fd(fd) => Ok(
                SystemCall::Splice {
                    from: self.fd_in,
                    to: fd,
                    len: self.len,
                    flags: SPLICE_F_NONBLOCK,
                },
            ),
            _ => Err(polling_unsupported()),
        }
    }

    fn poll_completion(&mut self, reply: Reply) -> (r: Poll<Result<usize, IoError>>)
        ensures
            r == match reply.settled() {
                Settled::Pending => Poll::Pending,
                Settled::Refused(error) => Poll::Ready(Err::<usize, IoError>(error)),
                Settled::Result(result) => Poll::Ready(
                    if result < 0 {
                        Err(IoError::Os(System::Linux, (-result) as i32))
                    } else {
                        Ok(result as usize)
                    },
                ),
            },
            final(self).completion_token == reply.token_after(old(self).completion_token),
            final(self).fd_in == old(self).fd_in,
            final(self).fd_out == old(self).fd_out,
            final(self).len == old(self).len,
            final(self).source_registration == old(self).source_registration,
            final(self).completion_fds == old(self).completion_fds,
    {
        match settle(&mut self.completion_token, reply) {
            Settled::Pending => Poll::Pending,
            Settled::Refused(error) => Poll::Ready(Err(error)),
            Settled::Result(result) => {
                if result < 0 {
                    Poll::Ready(Err(IoError::Os(System::Linux, -result)))
                } else {
                    Poll::Ready(Ok(result as usize))
                }
            },
        }
    }

    /// The entry names the duplicates, so that it stays good when the caller
    /// closes its own descriptors. Without them there is none.
    fn build_completion_entry(&mut self, user_data: u64) -> (r: Result<CompletionEntry, IoError>)
        ensures
            r == match old(self).completion_fds {
                Some(duplicates) => Ok::<CompletionEntry, IoError>(
                    CompletionEntry {
                        fd: duplicates.destination_fd,
                        opcode: Opcode::Splice {
                            from: duplicates.source_fd,
                            offset_in: -1i64,
                            offset_out: -1i64,
                            len: old(self).len as u32,
                        },
                        user_data,
                    },
                ),
                None => Err(no_completion()),
            },
            *final(self) == *old(self),
    {
        match &self.completion_fds {
            Some(duplicates) => Ok(
                CompletionEntry {
                    fd: duplicates.destination_fd,
                    opcode: Opcode::Splice {
                        from: duplicates.source_fd,
                        offset_in: -1,
                        offset_out: -1,
                        len: self.len as u32,
                    },
                    user_data,
                },
            ),
            None => Err(completion_unsupported()),
        }
    }
}

/// A completed splice reports the bytes that moved.
pub proof fn completed_splices_count_what_moved<'a, D, R>(
    before: SpliceOp<'a, D, R>,
    after: SpliceOp<'a, D, R>,
    reply: Reply,
    r: Poll<Result<usize, IoError>>,
    result: i32,
    token: usize,
    error: IoError,
)
    requires
        exists|op: &mut SpliceOp<'a, D, R>|
            *op == before && *final(op) == after && #[trigger] call_ensures(
                <SpliceOp<'a, D, R> as Op>::poll_completion,
                (op, reply),
                r,
            ),
    ensures
        (reply == Reply::Submitted(CompletionIoResult::Completed(result)) || reply
            == Reply::Collected(
            Some(result),
        )) ==> after.completion_token is None && (result >= 0 ==> (r matches
            Poll::Ready(Ok(count)) && count == result)) && (result < 0
                ==> (r matches Poll::Ready(Err(_)))),
        (reply == Reply::Submitted(CompletionIoResult::Completed(result)) || reply
            == Reply::Collected(
            Some(result),
        )) && i32::MIN < result < 0 ==> (r matches Poll::Ready(
            Err(IoError::Os(own, code)),
        ) && own == System::Linux && code == -result),
        reply == Reply::Submitted(CompletionIoResult::Retry(token)) ==> r is Pending
            && after.completion_token == Some(token),
        reply == Reply::Submitted(CompletionIoResult::SubmitErr(error))
            ==> after.completion_token is None
            && r == Poll::Ready(Err::<usize, IoError>(error)),
        reply == Reply::Collected(None) ==> r is Pending && after.completion_token
            == before.completion_token,
        after.fd_in == before.fd_in && after.fd_out == before.fd_out && after.len == before.len
            && after.source_registration == before.source_registration && after.completion_fds
            == before.completion_fds,
{
}

/// An entry moves bytes between the duplicates, from the source to the destination,
/// at their own cursors; without duplicates there is none.
pub proof fn splices_move_between_the_duplicates<'a, D, R>(
    before: SpliceOp<'a, D, R>,
    after: SpliceOp<'a, D, R>,
    user_data: u64,
    r: Result<CompletionEntry, IoError>,
)
    requires
        exists|op: &mut SpliceOp<'a, D, R>|
            *op == before && *final(op) == after && #[trigger] call_ensures(
                <SpliceOp<'a, D, R> as Op>::build_completion_entry,
                (op, user_data),
                r,
            ),
    ensures
        r is Ok <==> before.completion_fds is Some,
        r matches Ok(entry) ==> (before.completion_fds matches Some(fds) && entry.user_data
            == user_data
            && entry.fd == fds.destination_fd && (entry.opcode matches Opcode::Splice {
            from,
            offset_in,
            offset_out,
            len,
        } && from == fds.source_fd && offset_in == -1 && offset_out == -1 && (before.len
            < 0x1_0000_0000 ==> len == before.len))),
        after == before,
{
}

/// A splice moves as much as was asked for, as far as an entry can say; a larger
/// length becomes the largest one and never nothing.
pub proof fn splice_lengths_never_wrap<'a, D, R>(
    fd_in: i32,
    fd_out: &'a InnerRawHandle,
    len: usize,
    r: SpliceOp<'a, D, R>,
)
    requires
        call_ensures(SpliceOp::<'a, D, R>::new, (fd_in, fd_out, len), r),
    ensures
        r.fd_in == fd_in && r.fd_out == fd_out,
        len < 0x1_0000_0000 ==> r.len == len,
        len >= 0x1_0000_0000 ==> r.len == 0xffff_ffff,
        r.completion_token is None && r.source_registration is None && r.completion_fds is None,
{
}

/// The call moves bytes from the source to the destination and does not block.
pub proof fn polled_splices_move_from_source_to_destination<'a, D, R>(
    op: SpliceOp<'a, D, R>,
    r: Result<SystemCall, IoError>,
)
    requires
        call_ensures(<SpliceOp<'a, D, R> as Op>::poll_call, (&op,), r),
    ensures
        op.fd_out.handle matches RawOsHandle::Fd(fd) ==> (r matches Ok(
            SystemCall::Splice { from, to, len, flags },
        ) && from == op.fd_in && to == fd && len == op.len && flags == 2),
        !(op.fd_out.handle is Fd) ==> r is Err,
{
}

/// A polled splice ends with what its call, or a step of the wait, gave. Where the
/// call would block it asks the source: one that is ready leaves the destination to be
/// waited for, one that is not is watched, by one registration.
pub proof fn polled_splices_wait_for_one_end<'a, D, R>(
    before: SpliceOp<'a, D, R>,
    after: SpliceOp<'a, D, R>,
    event: SpliceEvent<R>,
    r: SpliceStep,
    count: usize,
    error: IoError,
    ready: bool,
    registration: R,
)
    requires
        exists|op: &mut SpliceOp<'a, D, R>|
            *op == before && *final(op) == after && #[trigger] call_ensures(
                SpliceOp::<'a, D, R>::poll_poll,
                (op, event),
                r,
            ),
    ensures
        event == SpliceEvent::<R>::Called(Ok(count)) ==> r
            == SpliceStep::Done(Ok::<usize, IoError>(count)),
        event == SpliceEvent::<R>::Called(Err(error)) ==> if error.would_block() {
            r is AskSource
        } else {
            r == SpliceStep::Done(Err::<usize, IoError>(error))
        },
        event == SpliceEvent::<R>::SourceReady(Ok(ready))
            ==> (r is AwaitDestination <==> ready) && (r
            is AwaitSource <==> !ready && before.source_registration is Some)
                && (r is RegisterSource
            <==> !ready && before.source_registration is None),
        event == SpliceEvent::<R>::SourceReady(Err(error)) || event
            == SpliceEvent::<R>::SourceRegistered(Err(error)) ==> r == SpliceStep::Done(
            Err::<usize, IoError>(error),
        ),
        event == SpliceEvent::SourceRegistered(Ok(registration)) ==> r is AwaitSource
            && after.source_registration == Some(registration),
        !(event is SourceRegistered) ==> after.source_registration == before.source_registration,
        (r matches SpliceStep::Done(Ok(moved)) ==> event == SpliceEvent::<R>::Called(Ok(moved))),
        after.fd_in == before.fd_in && after.fd_out == before.fd_out && after.len == before.len
            && after.completion_token == before.completion_token && after.completion_fds
            == before.completion_fds,
{
}

/// Duplicates are kept together or not at all.
pub proof fn duplicates_are_kept_together<'a, D, R>(
    before: SpliceOp<'a, D, R>,
    after: SpliceOp<'a, D, R>,
    source: Result<(D, i32), IoError>,
    destination: Result<(D, i32), IoError>,
    r: Result<(), IoError>,
    needed: bool,
)
    requires
        exists|op: &mut SpliceOp<'a, D, R>|
            *op == before && *final(op) == after && #[trigger] call_ensures(
                SpliceOp::<'a, D, R>::keep_duplicates,
                (op, source, destination),
                r,
            ),
        call_ensures(SpliceOp::<'a, D, R>::needs_duplicates, (&before,), needed),
    ensures
        needed <==> before.completion_fds is None,
        r is Ok <==> source is Ok && destination is Ok,
        r is Err ==> after.completion_fds == before.completion_fds,
        r is Ok ==> (after.completion_fds matches Some(fds) && source == Ok::<(D, i32), IoError>(
            (fds.source, fds.source_fd),
        ) && destination == Ok::<(D, i32), IoError>((fds.destination, fds.destination_fd))),
        source matches Err(error) ==> r == Err::<(), IoError>(error),
        source is Ok ==> (destination matches Err(error) ==> r == Err::<(), IoError>(error)),
{
}

/// A splice that is with its driver leaves its duplicates there.
pub proof fn cancelled_splices_leave_their_duplicates<'a, D, R>(
    op: SpliceOp<'a, D, R>,
    r: Option<Cancelled<Option<Duplicates<D>>>>,
)
    requires
        call_ensures(SpliceOp::<'a, D, R>::cancel, (op,), r),
    ensures
        r is Some <==> op.completion_token is Some,
        r matches Some(left) ==> op.completion_token == Some(left.token) && left.driver
            == op.fd_out.driver && left.storage == op.completion_fds,
{
}

/// A splice asks for the result under its token exactly while it has one.
pub proof fn splices_ask_under_their_token<'a, D, R>(
    op: SpliceOp<'a, D, R>,
    token: Option<usize>,
    request: Request,
)
    requires
        call_ensures(<SpliceOp<'a, D, R> as Op>::completion_token, (&op,), token),
        call_ensures(<SpliceOp<'a, D, R> as Op>::request, (&op,), request),
    ensures
        token == op.completion_token && op.token() == op.completion_token,
        request is Submit <==> op.completion_token is None,
        request matches Request::Collect(own) ==> op.completion_token == Some(own),
{
}

} // verus!
