//! Accepting connections on a Unix domain socket.

use vstd::prelude::*;

use crate::error::IoError;
use crate::handle::{InnerRawHandle, RawOsHandle};
use crate::op::{
    completion_unsupported, no_completion, no_polling, settle, Cancelled, CompletionEntry,
    CompletionIoResult, Op, Opcode, Reply, Request, Settled, SystemCall,
};
use crate::poll::{attempt_spec, poll_result_or_wait, Attempt, Interest, Poll};
use crate::system::{System, Unix};

verus! {

/// Linux: close the new descriptor when another program is run.
pub const SOCK_CLOEXEC: i32 = 0x8_0000;

/// Linux: the new descriptor does not block.
pub const SOCK_NONBLOCK: i32 = 0x800;

/// The two flags together.
pub const ACCEPT_FLAGS: i32 = 0x8_0800;

/// The flags of an accept by polling. Where the call takes none, the descriptor
/// is marked afterwards.
#[verifier::allow_in_spec]
pub fn accept_flags(unix: Unix) -> i32
    returns
        (match unix {
            Unix::Linux => ACCEPT_FLAGS,
            Unix::Macos => 0i32,
        }),
{
    match unix {
        Unix::Linux => ACCEPT_FLAGS,
        Unix::Macos => 0,
    }
}

/// Finish an accept whose call took no flags: `marked` is the outcome of marking
/// the descriptor to be closed on exec. One that cannot be marked is closed.
pub fn finish_marked<S>(owned: S, marked: Result<(), IoError>) -> (r: Result<S, IoError>)
    ensures
        r == match marked {
            Ok(_) => Ok::<S, IoError>(owned),
            Err(error) => Err(error),
        },
{
    match marked {
        Ok(_) => Ok(owned),
        Err(error) => Err(error),
    }
}

/// An accept, whose result is the number of a new descriptor that the caller
/// owns.
pub struct AcceptUnixOp<'a> {
    pub handle: &'a InnerRawHandle,
    pub completion_token: Option<usize>,
}

/// What a completed accept comes to: a descriptor, or the error.
pub open spec fn accepted_fd(system: System, result: i32) -> Result<i32, IoError> {
    if result < 0 {
        Err(crate::error::completion_error_spec(system, result))
    } else {
        Ok(result)
    }
}

pub fn accept_result(system: System, result: i32) -> (r: Result<i32, IoError>)
    ensures
        r == accepted_fd(system, result),
{
    if result < 0 {
        Err(crate::error::completion_error(system, result))
    } else {
        Ok(result)
    }
}

/// What an answer means to an operation that returns a descriptor.
pub open spec fn descriptor_poll(system: System, reply: Reply) -> Poll<Result<i32, IoError>> {
    match reply.settled() {
        Settled::Pending => Poll::Pending,
        Settled::Refused(error) => Poll::Ready(Err(error)),
        Settled::Result(result) => Poll::Ready(accepted_fd(system, result)),
    }
}

impl<'a> AcceptUnixOp<'a> {
    pub fn new(handle: &'a InnerRawHandle) -> (r: Self)
        ensures
            r.handle == handle,
            r.completion_token is None,
    {
        AcceptUnixOp { handle, completion_token: None }
    }

    /// Give the operation up. The driver of the handle is to drop its result.
    pub fn cancel(self) -> (r: Option<Cancelled<()>>)
        ensures
            r == match self.completion_token {
                Some(token) => Some(
                    Cancelled { driver: self.handle.driver, token, storage: () },
                ),
                None => None,
            },
    {
        match self.completion_token {
            Some(token) => Some(Cancelled { driver: self.handle.driver, token, storage: () }),
            None => None,
        }
    }

    /// Take in the result of the call: a descriptor, or a reason to wait or to
    /// fail.
    pub fn poll_poll(&mut self, result: Result<i32, IoError>) -> (r: Attempt<i32>)
        ensures
            r == attempt_spec(result, Interest::Readable),
            *final(self) == *old(self),
    {
        poll_result_or_wait(result, Interest::Readable)
    }
}

impl<'a> Op for AcceptUnixOp<'a> {
    type Output = i32;

    open spec fn token(&self) -> Option<usize> {
        self.completion_token
    }

    open spec fn admits(&self, result: i32) -> bool {
        true
    }

    fn completion_token(&self) -> (r: Option<usize>) {
        self.completion_token
    }

    fn completion_returns_fd(&self) -> (r: bool)
        ensures
            r == (self.handle.system() == System::Linux),
    {
        matches!(self.handle.system(), System::Linux)
    }

    fn poll_call(&self) -> (r: Result<SystemCall, IoError>)
        ensures
            r == match self.handle.handle {
                RawOsHandle::Fd(fd) => Ok::<SystemCall, IoError>(
                    SystemCall::Accept { fd, flags: accept_flags(self.handle.unix) },
                ),
                _ => Err(no_polling()),
            },
    {
        match self.handle.handle {
            RawOsHandle::Fd(fd) => Ok(
                SystemCall::Accept { fd, flags: accept_flags(self.handle.unix) },
            ),
            _ => Err(crate::op::polling_unsupported()),
        }
    }

    fn poll_completion(&mut self, reply: Reply) -> (r: Poll<Result<i32, IoError>>)
        ensures
            r == descriptor_poll(old(self).handle.system(), reply),
            final(self).completion_token == reply.token_after(old(self).completion_token),
            final(self).handle == old(self).handle,
    {
        match settle(&mut self.completion_token, reply) {
            Settled::Pending => Poll::Pending,
            Settled::Refused(error) => Poll::Ready(Err(error)),
            Settled::Result(result) => Poll::Ready(accept_result(self.handle.system(), result)),
        }
    }

    fn build_completion_entry(&mut self, user_data: u64) -> (r: Result<CompletionEntry, IoError>)
        ensures
            r == match old(self).handle.handle {
                RawOsHandle::Fd(fd) => Ok::<CompletionEntry, IoError>(
                    CompletionEntry {
                        fd,
                        opcode: Opcode::Accept { flags: SOCK_CLOEXEC },
                        user_data,
                    },
                ),
                _ => Err(no_completion()),
            },
            *final(self) == *old(self),
    {
        match self.handle.handle {
            RawOsHandle::Fd(fd) => Ok(
                CompletionEntry { fd, opcode: Opcode::Accept { flags: SOCK_CLOEXEC }, user_data },
            ),
            _ => Err(completion_unsupported()),
        }
    }
}

/// A completed accept gives the descriptor that came, or the error of its code.
pub proof fn completed_accepts_give_the_descriptor<'a>(
    before: AcceptUnixOp<'a>,
    after: AcceptUnixOp<'a>,
    reply: Reply,
    r: Poll<Result<i32, IoError>>,
    result: i32,
    token: usize,
    error: IoError,
)
    requires
        exists|op: &mut AcceptUnixOp<'a>|
            *op == before && *final(op) == after && #[trigger] call_ensures(
                <AcceptUnixOp<'a> as Op>::poll_completion,
                (op, reply),
                r,
            ),
    ensures
        (reply == Reply::Submitted(CompletionIoResult::Completed(result)) || reply
            == Reply::Collected(
            Some(result),
        )) ==> after.completion_token is None && (result >= 0 ==> r == Poll::Ready(
            Ok::<i32, IoError>(result),
        )) && (result < 0 ==> (r matches Poll::Ready(Err(_)))),
        (reply == Reply::Submitted(CompletionIoResult::Completed(result)) || reply
            == Reply::Collected(
            Some(result),
        )) && i32::MIN < result < 0 ==> (r matches Poll::Ready(
            Err(IoError::Os(own, code)),
        ) && own == before.handle.system() && code == -result),
        reply == Reply::Submitted(CompletionIoResult::Retry(token)) ==> r is Pending
            && after.completion_token == Some(token),
        reply == Reply::Submitted(CompletionIoResult::SubmitErr(error))
            ==> after.completion_token is None
            && r == Poll::Ready(Err::<i32, IoError>(error)),
        reply == Reply::Collected(None) ==> r is Pending && after.completion_token
            == before.completion_token,
        after.handle == before.handle,
{
}

/// An accept is made on its own listener and has the new descriptor closed on exec.
pub proof fn accepts_close_on_exec<'a>(
    before: AcceptUnixOp<'a>,
    after: AcceptUnixOp<'a>,
    user_data: u64,
    r: Result<CompletionEntry, IoError>,
)
    requires
        exists|op: &mut AcceptUnixOp<'a>|
            *op == before && *final(op) == after && #[trigger] call_ensures(
                <AcceptUnixOp<'a> as Op>::build_completion_entry,
                (op, user_data),
                r,
            ),
    ensures
        r matches Ok(entry) ==> {
            &&& before.handle.handle == RawOsHandle::Fd(entry.fd)
            &&& entry.user_data == user_data
            &&& entry.opcode matches Opcode::Accept { flags } && flags == 0x8_0000
        },
        r is Ok <==> before.handle.handle is Fd,
        after == before,
{
}

/// A polled accept is made on its own listener. On Linux the new descriptor does not
/// block and is closed on exec; elsewhere the call takes no flags.
pub proof fn polled_accepts_do_not_block<'a>(
    op: AcceptUnixOp<'a>,
    r: Result<SystemCall, IoError>,
)
    requires
        call_ensures(<AcceptUnixOp<'a> as Op>::poll_call, (&op,), r),
    ensures
        op.handle.handle matches RawOsHandle::Fd(fd) ==> (r matches Ok(
            SystemCall::Accept { fd: own, flags },
        ) && own == fd && flags == if op.handle.unix is Linux {
            0x8_0800i32
        } else {
            0i32
        }),
        !(op.handle.handle is Fd) ==> r is Err,
{
}

/// A polled accept gives the descriptor of its call; it waits only where the call would
/// have had to. A descriptor that could not be marked is given up.
pub proof fn polled_accepts_give_the_descriptor<'a, S>(
    before: AcceptUnixOp<'a>,
    after: AcceptUnixOp<'a>,
    result: Result<i32, IoError>,
    r: Attempt<i32>,
    owned: S,
    marked: Result<(), IoError>,
    finished: Result<S, IoError>,
    transfers: bool,
)
    requires
        exists|op: &mut AcceptUnixOp<'a>|
            *op == before && *final(op) == after && #[trigger] call_ensures(
                AcceptUnixOp::<'a>::poll_poll,
                (op, result),
                r,
            ),
        call_ensures(finish_marked::<S>, (owned, marked), finished),
        call_ensures(<AcceptUnixOp<'a> as Op>::completion_returns_fd, (&before,), transfers),
    ensures
        r matches Attempt::Done(own) ==> own == result,
        r matches Attempt::AwaitReadiness(awaited) ==> awaited is Readable,
        r is AwaitReadiness <==> (result matches Err(error) && error.would_block()),
        after == before,
        finished matches Ok(own) ==> own == owned && marked is Ok,
        finished matches Err(error) ==> marked == Err::<(), IoError>(error),
        transfers <==> before.handle.handle is Fd && before.handle.unix is Linux,
{
}

/// An accept that is with its driver is left to it, under its token.
pub proof fn cancelled_accepts_are_left_to_their_driver<'a>(
    op: AcceptUnixOp<'a>,
    r: Option<Cancelled<()>>,
)
    requires
        call_ensures(AcceptUnixOp::<'a>::cancel, (op,), r),
    ensures
        r is Some <==> op.completion_token is Some,
        r matches Some(left) ==> op.completion_token == Some(left.token) && left.driver
            == op.handle.driver,
{
}

/// A descriptor accept is made for the handle it is given, with the driver not asked yet.
pub proof fn descriptor_accepts_are_made_for_their_handle<'a>(
    handle: &'a InnerRawHandle,
    made: AcceptUnixOp<'a>,
)
    requires
        call_ensures(AcceptUnixOp::<'a>::new, (handle,), made),
    ensures
        made.handle == handle && made.completion_token is None,
{
}

/// A descriptor accept asks for the result under its token exactly while it has one.
pub proof fn descriptor_accepts_ask_under_their_token<'a>(
    op: AcceptUnixOp<'a>,
    token: Option<usize>,
    request: Request,
)
    requires
        call_ensures(<AcceptUnixOp<'a> as Op>::completion_token, (&op,), token),
        call_ensures(<AcceptUnixOp<'a> as Op>::request, (&op,), request),
    ensures
        token == op.completion_token && op.token() == op.completion_token,
        request is Submit <==> op.completion_token is None,
        request matches Request::Collect(own) ==> op.completion_token == Some(own),
{
}

/// A polled accept has flags on Linux alone; a completed one gives the descriptor that came, or the
/// error of its code.
pub proof fn accept_results_are_descriptors(
    unix: Unix,
    flags: i32,
    system: System,
    result: i32,
    r: Result<i32, IoError>,
)
    requires
        call_ensures(accept_flags, (unix,), flags),
        call_ensures(accept_result, (system, result), r),
    ensures
        unix is Linux ==> flags == 0x8_0800,
        unix is Macos ==> flags == 0,
        r is Ok <==> result >= 0,
        r matches Ok(fd) ==> fd == result,
        i32::MIN < result < 0 ==> (r matches Err(IoError::Os(own, code)) && own == system && code
            == -result),
{
}

} // verus!
