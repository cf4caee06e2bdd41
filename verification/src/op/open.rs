//! Opening files.

use vstd::prelude::*;

use crate::error::IoError;
use crate::handle::DriverId;
use crate::op::accept_unix::{accept_result, descriptor_poll};
use crate::op::{
    request_for, request_of, settle, Cancelled, CompletionEntry, CompletionIoResult, Op, Opcode,
    Reply, Request, Settled,
};
use crate::poll::Poll;
use crate::system::System;

verus! {

/// Relative paths are resolved against the working directory.
pub const AT_FDCWD: i32 = -100;

/// An open, whose result is the number of a new descriptor that the caller owns.
/// `path` holds the bytes of the path without the final zero.
pub struct OpenOp {
    pub driver: DriverId,
    pub path: Vec<u8>,
    pub flags: i32,
    pub mode: u32,
    pub completion_token: Option<usize>,
}

impl OpenOp {
    pub fn new(driver: DriverId, path: Vec<u8>, flags: i32, mode: u32) -> (r: Self)
        ensures
            r.driver == driver,
            r.path == path,
            r.flags == flags,
            r.mode == mode,
            r.completion_token is None,
    {
        OpenOp { driver, path, flags, mode, completion_token: None }
    }

    /// What the operation asks of the driver that it is polled on.
    pub fn request_on(&self, driver: DriverId) -> (r: Result<Request, IoError>)
        ensures
            r == request_of(self.driver, self.completion_token, driver),
    {
        request_for(self.driver, self.completion_token, driver)
    }

    /// Give the operation up. One that is with its driver leaves the storage that
    /// the kernel can see there.
    pub fn cancel(self) -> (r: Option<Cancelled<Vec<u8>>>)
        ensures
            r == match self.completion_token {
                Some(token) => Some(
                    Cancelled { driver: self.driver, token, storage: self.path },
                ),
                None => None,
            },
    {
        match self.completion_token {
            Some(token) => Some(
                Cancelled { driver: self.driver, token, storage: self.path },
            ),
            None => None,
        }
    }
}

impl Op for OpenOp {
    type Output = i32;

    open spec fn token(&self) -> Option<usize> {
        self.completion_token
    }

    open spec fn admits(&self, result: i32) -> bool {
        true
    }

    fn completion_token(&self) -> (r: Option<usize>) {
        self.completion_token
    }

    fn completion_returns_fd(&self) -> (r: bool)
        ensures
            r,
    {
        true
    }

    fn poll_completion(&mut self, reply: Reply) -> (r: Poll<Result<i32, IoError>>)
        ensures
            r == descriptor_poll(System::Linux, reply),
            final(self).completion_token == reply.token_after(old(self).completion_token),
            final(self).driver == old(self).driver,
            final(self).path == old(self).path,
            final(self).flags == old(self).flags,
            final(self).mode == old(self).mode,
    {
        match settle(&mut self.completion_token, reply) {
            Settled::Pending => Poll::Pending,
            Settled::Refused(error) => Poll::Ready(Err(error)),
            Settled::Result(result) => Poll::Ready(accept_result(System::Linux, result)),
        }
    }

    fn build_completion_entry(&mut self, user_data: u64) -> (r: Result<CompletionEntry, IoError>)
        ensures
            r == Ok::<CompletionEntry, IoError>(
                CompletionEntry {
                    fd: AT_FDCWD,
                    opcode: Opcode::OpenAt { flags: old(self).flags, mode: old(self).mode },
                    user_data,
                },
            ),
            *final(self) == *old(self),
    {
        Ok(
            CompletionEntry {
                fd: AT_FDCWD,
                opcode: Opcode::OpenAt { flags: self.flags, mode: self.mode },
                user_data,
            },
        )
    }
}

/// A completed open gives the descriptor that came, or the error of its code.
pub proof fn completed_opens_give_the_descriptor(
    before: OpenOp,
    after: OpenOp,
    reply: Reply,
    r: Poll<Result<i32, IoError>>,
    result: i32,
    token: usize,
    error: IoError,
)
    requires
        exists|op: &mut OpenOp|
            *op == before && *final(op) == after && #[trigger] call_ensures(
                <OpenOp as Op>::poll_completion,
                (op, reply),
                r,
            ),
    ensures
        (reply == Reply::Submitted(CompletionIoResult::Completed(result)) || reply
            == Reply::Collected(
            Some(result),
        )) ==> after.completion_token is None && (result >= 0 ==> r == Poll::Ready(
            Ok::<i32, IoError>(result),
        )) && (result < 0 ==> (r matches Poll::Ready(Err(_)))),
        (reply == Reply::Submitted(CompletionIoResult::Completed(result)) || reply
            == Reply::Collected(
            Some(result),
        )) && i32::MIN < result < 0 ==> (r matches Poll::Ready(
            Err(IoError::Os(own, code)),
        ) && own == System::Linux && code == -result),
        reply == Reply::Submitted(CompletionIoResult::Retry(token)) ==> r is Pending
            && after.completion_token == Some(token),
        reply == Reply::Submitted(CompletionIoResult::SubmitErr(error))
            ==> after.completion_token is None
            && r == Poll::Ready(Err::<i32, IoError>(error)),
        reply == Reply::Collected(None) ==> r is Pending && after.completion_token
            == before.completion_token,
        after.driver == before.driver && after.path == before.path && after.flags == before.flags
            && after.mode == before.mode,
{
}

/// An open names its flags and its mode, against the working directory; what comes of
/// it is a descriptor that someone owns.
pub proof fn opens_ask_for_what_they_were_given(
    driver: DriverId,
    path: Vec<u8>,
    flags: i32,
    mode: u32,
    before: OpenOp,
    after: OpenOp,
    user_data: u64,
    r: Result<CompletionEntry, IoError>,
    owned: bool,
)
    requires
        call_ensures(OpenOp::new, (driver, path, flags, mode), before),
        exists|op: &mut OpenOp|
            *op == before && *final(op) == after && #[trigger] call_ensures(
                <OpenOp as Op>::build_completion_entry,
                (op, user_data),
                r,
            ),
        call_ensures(<OpenOp as Op>::completion_returns_fd, (&before,), owned),
    ensures
        r == Ok::<CompletionEntry, IoError>(
            CompletionEntry { fd: -100i32, opcode: Opcode::OpenAt { flags, mode }, user_data },
        ),
        after == before && after.path == path && after.driver == driver,
        before.completion_token is None,
        owned,
{
}

/// An open that is with its driver leaves its path there.
pub proof fn cancelled_opens_leave_their_path(
    op: OpenOp,
    r: Option<Cancelled<Vec<u8>>>,
)
    requires
        call_ensures(OpenOp::cancel, (op,), r),
    ensures
        r is Some <==> op.completion_token is Some,
        r matches Some(left) ==> op.completion_token == Some(left.token) && left.driver
            == op.driver && left.storage == op.path,
{
}

/// The operation asks its own driver alone.
pub proof fn opens_ask_their_own_driver(
    op: OpenOp,
    driver: DriverId,
    r: Result<Request, IoError>,
)
    requires
        call_ensures(OpenOp::request_on, (&op, driver), r),
    ensures
        r is Ok <==> op.driver.0 == driver.0,
        r matches Ok(Request::Collect(token)) ==> op.completion_token == Some(token),
        r matches Ok(Request::Submit) ==> op.completion_token is None,
{
}

/// An open asks for the result under its token exactly while it has one.
pub proof fn opens_ask_under_their_token(
    op: OpenOp,
    token: Option<usize>,
    request: Request,
)
    requires
        call_ensures(<OpenOp as Op>::completion_token, (&op,), token),
        call_ensures(<OpenOp as Op>::request, (&op,), request),
    ensures
        token == op.completion_token && op.token() == op.completion_token,
        request is Submit <==> op.completion_token is None,
        request matches Request::Collect(own) ==> op.completion_token == Some(own),
{
}

} // verus!
