//! Reading the status of files.

use vstd::prelude::*;

use crate::error::IoError;
use crate::handle::DriverId;
use crate::op::{
    request_for, request_of, settle, Cancelled, CompletionEntry, CompletionIoResult, Op, Opcode,
    Reply, Request, Settled,
};
use crate::poll::Poll;
use crate::system::System;

verus! {

/// A status query. `pathname` holds the bytes of the path without the final zero,
/// `statxbuf` the storage that the kernel writes the status to.
pub struct StatxOp {
    pub driver: DriverId,
    pub dirfd: i32,
    pub pathname: Vec<u8>,
    pub flags: i32,
    pub mask: u32,
    pub statxbuf: Option<Box<[u8; 256]>>,
    pub completion_token: Option<usize>,
}

impl StatxOp {
    pub fn new(driver: DriverId, dirfd: i32, pathname: Vec<u8>, flags: i32, mask: u32) -> (r: Self)
        ensures
            r.driver == driver,
            r.dirfd == dirfd,
            r.pathname == pathname,
            r.flags == flags,
            r.mask == mask,
            r.statxbuf is None,
            r.completion_token is None,
    {
        StatxOp { driver, dirfd, pathname, flags, mask, statxbuf: None, completion_token: None }
    }

    /// What the operation asks of the driver that it is polled on.
    pub fn request_on(&self, driver: DriverId) -> (r: Result<Request, IoError>)
        ensures
            r == request_of(self.driver, self.completion_token, driver),
    {
        request_for(self.driver, self.completion_token, driver)
    }

    /// Give the operation up. One that is with its driver leaves the storage that
    /// the kernel can see there.
    pub fn cancel(self) -> (r: Option<Cancelled<(Vec<u8>, Option<Box<[u8; 256]>>)>>)
        ensures
            r == match self.completion_token {
                Some(token) => Some(
                    Cancelled { driver: self.driver, token, storage: (self.pathname, self.statxbuf) },
                ),
                None => None,
            },
    {
        match self.completion_token {
            Some(token) => Some(
                Cancelled { driver: self.driver, token, storage: (self.pathname, self.statxbuf) },
            ),
            None => None,
        }
    }
}

impl Op for StatxOp {
    type Output = Box<[u8; 256]>;

    open spec fn token(&self) -> Option<usize> {
        self.completion_token
    }

    /// A success comes only to an operation whose entry was built.
    open spec fn admits(&self, result: i32) -> bool {
        result >= 0 ==> self.statxbuf is Some
    }

    fn completion_token(&self) -> (r: Option<usize>) {
        self.completion_token
    }

    fn poll_completion(&mut self, reply: Reply) -> (r: Poll<Result<Box<[u8; 256]>, IoError>>)
        ensures
            r == match reply.settled() {
                Settled::Pending => Poll::Pending,
                Settled::Refused(error) => Poll::Ready(Err::<Box<[u8; 256]>, IoError>(error)),
                Settled::Result(result) => Poll::Ready(
                    if result < 0 {
                        Err(crate::error::completion_error_spec(System::Linux, result))
                    } else {
                        Ok(old(self).statxbuf->0)
                    },
                ),
            },
            final(self).statxbuf == if r matches Poll::Ready(Ok(_)) {
                None
            } else {
                old(self).statxbuf
            },
            final(self).completion_token == reply.token_after(old(self).completion_token),
            final(self).driver == old(self).driver,
            final(self).dirfd == old(self).dirfd,
            final(self).pathname == old(self).pathname,
            final(self).flags == old(self).flags,
            final(self).mask == old(self).mask,
    {
        let result: i32 = match settle(&mut self.completion_token, reply) {
            Settled::Pending => {
                return Poll::Pending;
            },
            Settled::Refused(error) => {
                return Poll::Ready(Err(error));
            },
            Settled::Result(result) => result,
        };
        if result < 0 {
            return Poll::Ready(Err(crate::error::completion_error(System::Linux, result)));
        }
        match self.statxbuf.take() {
            Some(status) => Poll::Ready(Ok(status)),
            None => Poll::Pending,
        }
    }

    fn build_completion_entry(&mut self, user_data: u64) -> (r: Result<CompletionEntry, IoError>)
        ensures
            r == Ok::<CompletionEntry, IoError>(
                CompletionEntry {
                    fd: old(self).dirfd,
                    opcode: Opcode::Statx { flags: old(self).flags, mask: old(self).mask },
                    user_data,
                },
            ),
            final(self).statxbuf matches Some(status) && (old(self).statxbuf matches Some(earlier)
                ==> status == earlier),
            final(self).completion_token == old(self).completion_token,
            final(self).driver == old(self).driver,
            final(self).dirfd == old(self).dirfd,
            final(self).pathname == old(self).pathname,
            final(self).flags == old(self).flags,
            final(self).mask == old(self).mask,
    {
        if self.statxbuf.is_none() {
            self.statxbuf = Some(Box::new([0u8; 256]));
        }
        Ok(
            CompletionEntry {
                fd: self.dirfd,
                opcode: Opcode::Statx { flags: self.flags, mask: self.mask },
                user_data,
            },
        )
    }
}

/// A completed query hands out the storage that the kernel wrote the status to, once;
/// a failed one keeps it.
pub proof fn completed_queries_hand_the_status_out(
    before: StatxOp,
    after: StatxOp,
    reply: Reply,
    r: Poll<Result<Box<[u8; 256]>, IoError>>,
    result: i32,
    token: usize,
    error: IoError,
)
    requires
        exists|op: &mut StatxOp|
            *op == before && *final(op) == after && #[trigger] call_ensures(
                <StatxOp as Op>::poll_completion,
                (op, reply),
                r,
            ),
    ensures
        (reply == Reply::Submitted(CompletionIoResult::Completed(result)) || reply
            == Reply::Collected(
            Some(result),
        )) ==> after.completion_token is None && (result >= 0 ==> after.statxbuf is None
            && (before.statxbuf matches Some(status) ==> r
            == Poll::Ready(Ok::<Box<[u8; 256]>, IoError>(status)))) && (result < 0
                ==> after.statxbuf
            == before.statxbuf),
        (reply == Reply::Submitted(CompletionIoResult::Completed(result)) || reply
            == Reply::Collected(
            Some(result),
        )) && i32::MIN < result < 0 ==> (r matches Poll::Ready(
            Err(IoError::Os(own, code)),
        ) && own == System::Linux && code == -result),
        reply == Reply::Submitted(CompletionIoResult::Retry(token)) ==> r is Pending
            && after.completion_token == Some(token),
        reply == Reply::Submitted(CompletionIoResult::SubmitErr(error))
            ==> after.completion_token is None
            && r == Poll::Ready(Err::<Box<[u8; 256]>, IoError>(error)),
        reply == Reply::Collected(None) ==> r is Pending && after.completion_token
            == before.completion_token,
        r is Pending ==> after.statxbuf == before.statxbuf,
        after.driver == before.driver && after.pathname == before.pathname && after.dirfd
            == before.dirfd && after.flags == before.flags && after.mask == before.mask,
{
}

/// A query names the directory, flags and mask it was given, and has storage for the
/// status from then on: that which it has, or new.
pub proof fn queries_ask_for_what_they_were_given(
    driver: DriverId,
    dirfd: i32,
    pathname: Vec<u8>,
    flags: i32,
    mask: u32,
    before: StatxOp,
    after: StatxOp,
    again: StatxOp,
    user_data: u64,
    r: Result<CompletionEntry, IoError>,
    r2: Result<CompletionEntry, IoError>,
)
    requires
        call_ensures(StatxOp::new, (driver, dirfd, pathname, flags, mask), before),
        exists|op: &mut StatxOp|
            *op == before && *final(op) == after && #[trigger] call_ensures(
                <StatxOp as Op>::build_completion_entry,
                (op, user_data),
                r,
            ),
        exists|op: &mut StatxOp|
            *op == after && *final(op) == again && #[trigger] call_ensures(
                <StatxOp as Op>::build_completion_entry,
                (op, user_data),
                r2,
            ),
    ensures
        r == Ok::<CompletionEntry, IoError>(
            CompletionEntry { fd: dirfd, opcode: Opcode::Statx { flags, mask }, user_data },
        ),
        r2 == r,
        before.statxbuf is None && after.statxbuf is Some && again.statxbuf == after.statxbuf,
        after.pathname == pathname && after.driver == driver && after.completion_token is None,
{
}

/// A query that is with its driver leaves path and storage there.
pub proof fn cancelled_queries_leave_their_storage(
    op: StatxOp,
    r: Option<Cancelled<(Vec<u8>, Option<Box<[u8; 256]>>)>>,
)
    requires
        call_ensures(StatxOp::cancel, (op,), r),
    ensures
        r is Some <==> op.completion_token is Some,
        r matches Some(left) ==> op.completion_token == Some(left.token) && left.driver
            == op.driver && left.storage.0 == op.pathname && left.storage.1 == op.statxbuf,
{
}

/// The operation asks its own driver alone.
pub proof fn queries_ask_their_own_driver(
    op: StatxOp,
    driver: DriverId,
    r: Result<Request, IoError>,
)
    requires
        call_ensures(StatxOp::request_on, (&op, driver), r),
    ensures
        r is Ok <==> op.driver.0 == driver.0,
        r matches Ok(Request::Collect(token)) ==> op.completion_token == Some(token),
        r matches Ok(Request::Submit) ==> op.completion_token is None,
{
}

/// A status query asks for the result under its token exactly while it has one.
pub proof fn status_queries_ask_under_their_token(
    op: StatxOp,
    token: Option<usize>,
    request: Request,
)
    requires
        call_ensures(<StatxOp as Op>::completion_token, (&op,), token),
        call_ensures(<StatxOp as Op>::request, (&op,), request),
    ensures
        token == op.completion_token && op.token() == op.completion_token,
        request is Submit <==> op.completion_token is None,
        request matches Request::Collect(own) ==> op.completion_token == Some(own),
{
}

} // verus!
