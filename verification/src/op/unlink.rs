//! Removing names from the file system.

use vstd::prelude::*;

use crate::error::IoError;
use crate::handle::DriverId;
use crate::op::open::AT_FDCWD;
use crate::op::{
    request_for, request_of, settle, Cancelled, CompletionEntry, CompletionIoResult, Op, Opcode,
    Reply, Request, Settled,
};
use crate::poll::Poll;
use crate::system::System;

verus! {

/// Remove a directory.
pub const AT_REMOVEDIR: i32 = 0x200;

/// An unlink of a file, or of a directory. `path` holds the bytes of the path
/// without the final zero.
pub struct UnlinkOp {
    pub driver: DriverId,
    pub path: Vec<u8>,
    pub is_dir: bool,
    pub completion_token: Option<usize>,
}

impl UnlinkOp {
    pub fn new(driver: DriverId, path: Vec<u8>, is_dir: bool) -> (r: Self)
        ensures
            r.driver == driver,
            r.path == path,
            r.is_dir == is_dir,
            r.completion_token is None,
    {
        UnlinkOp { driver, path, is_dir, completion_token: None }
    }

    /// What the operation asks of the driver that it is polled on.
    pub fn request_on(&self, driver: DriverId) -> (r: Result<Request, IoError>)
        ensures
            r == request_of(self.driver, self.completion_token, driver),
    {
        request_for(self.driver, self.completion_token, driver)
    }

    /// Give the operation up. One that is with its driver leaves the storage that
    /// the kernel can see there.
    pub fn cancel(self) -> (r: Option<Cancelled<Vec<u8>>>)
        ensures
            r == match self.completion_token {
                Some(token) => Some(
                    Cancelled { driver: self.driver, token, storage: self.path },
                ),
                None => None,
            },
    {
        match self.completion_token {
            Some(token) => Some(
                Cancelled { driver: self.driver, token, storage: self.path },
            ),
            None => None,
        }
    }
}

impl Op for UnlinkOp {
    type Output = ();

    open spec fn token(&self) -> Option<usize> {
        self.completion_token
    }

    /// No result that cannot be negated.
    open spec fn admits(&self, result: i32) -> bool {
        i32::MIN < result
    }

    fn completion_token(&self) -> (r: Option<usize>) {
        self.completion_token
    }

    fn poll_completion(&mut self, reply: Reply) -> (r: Poll<Result<(), IoError>>)
        ensures
            r == match reply.settled() {
                Settled::Pending => Poll::Pending,
                Settled::Refused(error) => Poll::Ready(Err::<(), IoError>(error)),
                Settled::Result(result) => Poll::Ready(
                    if result < 0 {
                        Err(IoError::Os(System::Linux, (-result) as i32))
                    } else {
                        Ok(())
                    },
                ),
            },
            final(self).completion_token == reply.token_after(old(self).completion_token),
            final(self).driver == old(self).driver,
            final(self).path == old(self).path,
            final(self).is_dir == old(self).is_dir,
    {
        match settle(&mut self.completion_token, reply) {
            Settled::Pending => Poll::Pending,
            Settled::Refused(error) => Poll::Ready(Err(error)),
            Settled::Result(result) => {
                if result < 0 {
                    Poll::Ready(Err(IoError::Os(System::Linux, -result)))
                } else {
                    Poll::Ready(Ok(()))
                }
            },
        }
    }

    fn build_completion_entry(&mut self, user_data: u64) -> (r: Result<CompletionEntry, IoError>)
        ensures
            r == Ok::<CompletionEntry, IoError>(
                CompletionEntry {
                    fd: AT_FDCWD,
                    opcode: Opcode::UnlinkAt {
                        flags: if old(self).is_dir {
                            AT_REMOVEDIR
                        } else {
                            0
                        },
                    },
                    user_data,
                },
            ),
            *final(self) == *old(self),
    {
        let flags: i32 = if self.is_dir {
            AT_REMOVEDIR
        } else {
            0
        };
        Ok(CompletionEntry { fd: AT_FDCWD, opcode: Opcode::UnlinkAt { flags }, user_data })
    }
}

/// A completed unlink succeeds, or fails with its code.
pub proof fn completed_unlinks_say_how_they_ended(
    before: UnlinkOp,
    after: UnlinkOp,
    reply: Reply,
    r: Poll<Result<(), IoError>>,
    result: i32,
    token: usize,
    error: IoError,
)
    requires
        exists|op: &mut UnlinkOp|
            *op == before && *final(op) == after && #[trigger] call_ensures(
                <UnlinkOp as Op>::poll_completion,
                (op, reply),
                r,
            ),
    ensures
        (reply == Reply::Submitted(CompletionIoResult::Completed(result)) || reply
            == Reply::Collected(
            Some(result),
        )) ==> after.completion_token is None && (result >= 0 ==> r == Poll::Ready(
            Ok::<(), IoError>(()),
        )),
        (reply == Reply::Submitted(CompletionIoResult::Completed(result)) || reply
            == Reply::Collected(
            Some(result),
        )) && i32::MIN < result < 0 ==> (r matches Poll::Ready(
            Err(IoError::Os(own, code)),
        ) && own == System::Linux && code == -result),
        reply == Reply::Submitted(CompletionIoResult::Retry(token)) ==> r is Pending
            && after.completion_token == Some(token),
        reply == Reply::Submitted(CompletionIoResult::SubmitErr(error))
            ==> after.completion_token is None
            && r == Poll::Ready(Err::<(), IoError>(error)),
        reply == Reply::Collected(None) ==> r is Pending && after.completion_token
            == before.completion_token,
        after.driver == before.driver && after.path == before.path && after.is_dir == before.is_dir,
{
}

/// A directory is removed as one, and nothing else is.
pub proof fn unlinks_remove_directories_as_such(
    driver: DriverId,
    path: Vec<u8>,
    is_dir: bool,
    before: UnlinkOp,
    after: UnlinkOp,
    user_data: u64,
    r: Result<CompletionEntry, IoError>,
)
    requires
        call_ensures(UnlinkOp::new, (driver, path, is_dir), before),
        exists|op: &mut UnlinkOp|
            *op == before && *final(op) == after && #[trigger] call_ensures(
                <UnlinkOp as Op>::build_completion_entry,
                (op, user_data),
                r,
            ),
    ensures
        r matches Ok(entry) && entry.fd == -100 && entry.user_data == user_data
            && (entry.opcode matches
            Opcode::UnlinkAt { flags } && flags == if is_dir { 0x200i32 } else { 0i32 }),
        after == before && after.path == path && after.driver == driver,
        before.completion_token is None,
{
}

/// An unlink that is with its driver leaves its path there.
pub proof fn cancelled_unlinks_leave_their_path(
    op: UnlinkOp,
    r: Option<Cancelled<Vec<u8>>>,
)
    requires
        call_ensures(UnlinkOp::cancel, (op,), r),
    ensures
        r is Some <==> op.completion_token is Some,
        r matches Some(left) ==> op.completion_token == Some(left.token) && left.driver
            == op.driver && left.storage == op.path,
{
}

/// The operation asks its own driver alone.
pub proof fn unlinks_ask_their_own_driver(
    op: UnlinkOp,
    driver: DriverId,
    r: Result<Request, IoError>,
)
    requires
        call_ensures(UnlinkOp::request_on, (&op, driver), r),
    ensures
        r is Ok <==> op.driver.0 == driver.0,
        r matches Ok(Request::Collect(token)) ==> op.completion_token == Some(token),
        r matches Ok(Request::Submit) ==> op.completion_token is None,
{
}

/// An unlink asks for the result under its token exactly while it has one.
pub proof fn unlinks_ask_under_their_token(
    op: UnlinkOp,
    token: Option<usize>,
    request: Request,
)
    requires
        call_ensures(<UnlinkOp as Op>::completion_token, (&op,), token),
        call_ensures(<UnlinkOp as Op>::request, (&op,), request),
    ensures
        token == op.completion_token && op.token() == op.completion_token,
        request is Submit <==> op.completion_token is None,
        request matches Request::Collect(own) ==> op.completion_token == Some(own),
{
}

} // verus!
