//! I/O operations.
//!
//! An operation runs in one of two ways. As a completion it is submitted to the
//! driver once, by the entry that it builds, and collected under a token. By
//! polling it is tried with a call that does not block, again each time the
//! handle becomes ready.

pub mod accept;
pub mod accept_unix;
pub mod connect;
pub mod io_util;
pub mod open;
pub mod read;
pub mod readat;
pub mod readv;
pub mod recv;
pub mod recvfrom;
pub mod send;
pub mod sendto;
pub mod socket_addr;
pub mod splice;
pub mod statx;
pub mod unlink;
pub mod waitpid;
pub mod writeat;
pub mod writev;

use vstd::prelude::*;

use crate::error::{ErrorKind, IoError};
use crate::handle::DriverId;
use crate::op::io_util::{read_error_result, read_error_spec};
use crate::poll::Poll;
use crate::system::System;

verus! {

/// What a driver says to a submission: a result at once, a token to collect it
/// by, or an error.
#[derive(Debug, Clone, Copy, PartialEq, Eq)]
pub enum CompletionIoResult {
    Completed(i32),
    Retry(usize),
    SubmitErr(IoError),
}

/// What an operation asks of its driver.
#[derive(Debug, Clone, Copy, PartialEq, Eq, Structural)]
pub enum Request {
    /// Submit the entry of the operation.
    Submit,
    /// Collect the result under the token. Where there is none yet, the driver
    /// is to keep the waiter of the polling task under the token.
    Collect(usize),
}

/// The driver's answer to a request.
#[derive(Debug, Clone, Copy, PartialEq, Eq)]
pub enum Reply {
    Submitted(CompletionIoResult),
    Collected(Option<i32>),
}

/// What the answer of a driver comes to.
#[derive(Debug, Clone, Copy, PartialEq, Eq)]
pub enum Settled {
    Result(i32),
    Refused(IoError),
    Pending,
}

impl Reply {
    /// The answer is one to what an operation with the given token asks.
    pub open spec fn answers(self, token: Option<usize>) -> bool {
        self is Submitted <==> token is None
    }

    pub open spec fn settled(self) -> Settled {
        match self {
            Reply::Submitted(CompletionIoResult::Completed(result)) => Settled::Result(result),
            Reply::Submitted(CompletionIoResult::Retry(_)) => Settled::Pending,
            Reply::Submitted(CompletionIoResult::SubmitErr(error)) => Settled::Refused(error),
            Reply::Collected(Some(result)) => Settled::Result(result),
            Reply::Collected(None) => Settled::Pending,
        }
    }

    /// The token that an operation holds after the answer: one as long as it is
    /// with the driver.
    pub open spec fn token_after(self, token: Option<usize>) -> Option<usize> {
        match self {
            Reply::Submitted(CompletionIoResult::Retry(fresh)) => Some(fresh),
            Reply::Collected(None) => token,
            _ => None,
        }
    }
}

/// Take in the answer of a driver.
pub fn settle(token: &mut Option<usize>, reply: Reply) -> (r: Settled)
    requires
        reply.answers(*old(token)),
    ensures
        r == reply.settled(),
        *final(token) == reply.token_after(*old(token)),
{
    match reply {
        Reply::Submitted(submitted) => match submitted {
            CompletionIoResult::Completed(result) => Settled::Result(result),
            CompletionIoResult::Retry(fresh) => {
                *token = Some(fresh);
                Settled::Pending
            },
            CompletionIoResult::SubmitErr(error) => Settled::Refused(error),
        },
        Reply::Collected(collected) => match collected {
            Some(result) => {
                *token = None;
                Settled::Result(result)
            },
            None => Settled::Pending,
        },
    }
}

/// An operation is with its driver exactly while it is pending.
pub proof fn pending_exactly_while_queued(token: Option<usize>, reply: Reply)
    requires
        reply.answers(token),
    ensures
        reply.settled() is Pending <==> reply.token_after(token) is Some,
{
}

/// A transfer that a completion reports: a count, or the error.
pub open spec fn transferred(system: System, result: i32) -> Result<usize, IoError> {
    if result < 0 {
        Err(crate::error::completion_error_spec(system, result))
    } else {
        Ok(result as usize)
    }
}

/// Decode the result of a transfer.
pub fn transfer_result(system: System, result: i32) -> (r: Result<usize, IoError>)
    ensures
        r == transferred(system, result),
{
    if result < 0 {
        Err(crate::error::completion_error(system, result))
    } else {
        Ok(result as usize)
    }
}

/// What an answer means to an operation that transfers bytes.
pub open spec fn transfer_poll(system: System, reply: Reply) -> Poll<Result<usize, IoError>> {
    match reply.settled() {
        Settled::Pending => Poll::Pending,
        Settled::Refused(error) => Poll::Ready(Err(error)),
        Settled::Result(result) => Poll::Ready(transferred(system, result)),
    }
}

/// What an answer means to a read of a file, where an end of the file that comes
/// as an error is a read of nothing.
pub open spec fn read_settled(system: System, settled: Settled) -> Poll<Result<usize, IoError>> {
    match settled {
        Settled::Pending => Poll::Pending,
        Settled::Refused(error) => Poll::Ready(
            match read_error_spec(system, error) {
                Ok(result) => Ok(result as usize),
                Err(error) => Err(error),
            },
        ),
        Settled::Result(result) => Poll::Ready(
            if result >= 0 {
                Ok(result as usize)
            } else {
                match read_error_spec(system, crate::error::completion_error_spec(system, result)) {
                    Ok(result) => Ok(result as usize),
                    Err(error) => Err(error),
                }
            },
        ),
    }
}

pub fn read_poll(system: System, settled: Settled) -> (r: Poll<Result<usize, IoError>>)
    ensures
        r == read_settled(system, settled),
{
    let error = match settled {
        Settled::Pending => {
            return Poll::Pending;
        },
        Settled::Refused(error) => error,
        Settled::Result(result) => {
            if result >= 0 {
                return Poll::Ready(Ok(result as usize));
            }
            crate::error::completion_error(system, result)
        },
    };
    match read_error_result(system, error) {
        Ok(result) => Poll::Ready(Ok(result as usize)),
        Err(error) => Poll::Ready(Err(error)),
    }
}

/// Storage that the kernel may still use, on its way to the driver that holds
/// the token. The driver keeps it until the completion is acknowledged.
#[derive(Debug, PartialEq, Eq)]
pub struct Cancelled<S> {
    pub driver: DriverId,
    pub token: usize,
    pub storage: S,
}

pub open spec fn wrong_driver() -> IoError {
    IoError::Message(ErrorKind::InvalidInput, "operation belongs to a different driver")
}

/// What an operation that was made for one driver asks of the driver that it is
/// polled on.
pub open spec fn request_of(
    owner: DriverId,
    token: Option<usize>,
    driver: DriverId,
) -> Result<Request, IoError> {
    if owner != driver {
        Err(wrong_driver())
    } else {
        match token {
            Some(token) => Ok(Request::Collect(token)),
            None => Ok(Request::Submit),
        }
    }
}

/// An operation that was made for one driver asks nothing of another.
pub fn request_for(owner: DriverId, token: Option<usize>, driver: DriverId) -> (r: Result<
    Request,
    IoError,
>)
    ensures
        r == request_of(owner, token, driver),
{
    if owner.0 != driver.0 {
        return Err(
            IoError::Message(ErrorKind::InvalidInput, "operation belongs to a different driver"),
        );
    }
    match token {
        Some(token) => Ok(Request::Collect(token)),
        None => Ok(Request::Submit),
    }
}

/// A call that does not block, to be made on a handle. Lengths are those of the
/// buffer of the operation.
#[allow(inconsistent_fields)]
#[derive(Debug, Clone, Copy, PartialEq, Eq, Structural)]
pub enum SystemCall {
    Read { fd: i32, len: usize },
    Recv { fd: i32, len: usize, flags: i32 },
    Send { fd: i32, len: usize },
    RecvFrom { fd: i32, len: usize, flags: i32 },
    SendTo { fd: i32, len: usize },
    Readv { fd: i32, count: i32 },
    Writev { fd: i32, count: i32 },
    Accept { fd: i32, flags: i32 },
    Splice { from: i32, to: i32, len: usize, flags: u32 },
    WsaAccept { listener: u64 },
    WsaRecv { socket: u64, len: u32, flags: u32 },
    WsaSend { socket: u64, len: u32 },
    WsaRecvFrom { socket: u64, len: u32, flags: u32 },
    WsaSendTo { socket: u64, len: u32 },
    WsaRecvVectored { socket: u64, count: u32 },
    WsaSendVectored { socket: u64, count: u32 },
}

/// An entry of the submission queue. Addresses of buffers and of retained
/// metadata are filled in where the entry is handed to the kernel.
#[derive(Debug, Clone, Copy, PartialEq, Eq, Structural)]
pub struct CompletionEntry {
    pub fd: i32,
    pub opcode: Opcode,
    pub user_data: u64,
}

/// What an entry asks for.
#[allow(inconsistent_fields)]
#[derive(Debug, Clone, Copy, PartialEq, Eq, Structural)]
pub enum Opcode {
    Read { len: u32, offset: u64 },
    Write { len: u32, offset: u64 },
    Readv { count: u32 },
    Writev { count: u32 },
    Recv { len: u32, flags: i32 },
    Send { len: u32 },
    RecvMsg { flags: u32 },
    SendMsg,
    Accept { flags: i32 },
    Connect { address_len: u32 },
    OpenAt { flags: i32, mode: u32 },
    Statx { flags: i32, mask: u32 },
    UnlinkAt { flags: i32 },
    Splice { from: i32, offset_in: i64, offset_out: i64, len: u32 },
}

/// The next call by which an operation is started on a handle of Windows. Most
/// operations start with their overlapped call; some prepare it by others, and
/// are asked again once the outcome has been taken in.
#[derive(Debug, Clone, Copy, PartialEq, Eq, Structural)]
pub enum WindowsCall {
    WsaRecv { socket: u64, len: u32, flags: u32 },
    WsaSend { socket: u64, len: u32 },
    WsaRecvFrom { socket: u64, len: u32, flags: u32 },
    WsaSendTo { socket: u64, len: u32 },
    WsaRecvVectored { socket: u64, count: u32 },
    WsaSendVectored { socket: u64, count: u32 },
    ReadFile { handle: u64, len: u32 },
    WriteFile { handle: u64, len: u32 },
    ReadFileAt { handle: u64, len: u32, offset_low: u32, offset_high: u32 },
    WriteFileAt { handle: u64, len: u32, offset_low: u32, offset_high: u32 },
    LoadAcceptEx { listener: u64 },
    LoadGetAcceptExSockaddrs { listener: u64 },
    CreateAcceptSocket { listener: u64 },
    AcceptEx { listener: u64 },
    BindUnspecified { socket: u64, family: u16 },
    LoadConnectEx { socket: u64 },
    ConnectEx { socket: u64, address_len: u32 },
}

/// Windows: an overlapped call goes on.
pub const ERROR_IO_PENDING: i32 = 997;

/// What starting an overlapped call comes to. `error` is the code of a call that
/// did not succeed at once; one that goes on has been started.
pub open spec fn overlapped_spec(error: Option<i32>) -> Result<(), IoError> {
    match error {
        Some(code) => if code == ERROR_IO_PENDING {
            Ok(())
        } else {
            Err(IoError::Os(System::Windows, code))
        },
        None => Ok(()),
    }
}

pub fn overlapped_started(error: Option<i32>) -> (r: Result<(), IoError>)
    ensures
        r == overlapped_spec(error),
{
    match error {
        Some(code) => {
            if code == ERROR_IO_PENDING {
                Ok(())
            } else {
                Err(IoError::Os(System::Windows, code))
            }
        },
        None => Ok(()),
    }
}

/// The error of an operation that cannot be polled.
pub open spec fn no_polling() -> IoError {
    IoError::Message(ErrorKind::Unsupported, "operation does not support poll-based submission")
}

pub fn polling_unsupported() -> (r: IoError)
    ensures
        r == no_polling(),
{
    IoError::Message(ErrorKind::Unsupported, "operation does not support poll-based submission")
}

/// The error of an operation that cannot be submitted as a completion.
pub open spec fn no_completion() -> IoError {
    IoError::Message(
        ErrorKind::Unsupported,
        "operation does not support completion-based submission",
    )
}

pub fn completion_unsupported() -> (r: IoError)
    ensures
        r == no_completion(),
{
    IoError::Message(
        ErrorKind::Unsupported,
        "operation does not support completion-based submission",
    )
}

/// How a driver runs an operation.
#[derive(Debug, Clone, Copy, PartialEq, Eq, Structural)]
pub enum Mode {
    Completion,
    Polling,
}

/// An I/O operation.
pub trait Op: Sized {
    /// What the operation returns.
    type Output;

    /// The token under which the operation is with its driver.
    spec fn token(&self) -> Option<usize>;

    /// The completions that the kernel can report for the operation.
    spec fn admits(&self, result: i32) -> bool;

    fn completion_token(&self) -> (r: Option<usize>)
        ensures
            r == self.token(),
    ;

    /// What the operation asks of its driver next.
    fn request(&self) -> (r: Request)
        ensures
            r == match self.token() {
                Some(token) => Request::Collect(token),
                None => Request::Submit,
            },
    {
        match self.completion_token() {
            Some(token) => Request::Collect(token),
            None => Request::Submit,
        }
    }

    /// Whether a successful completion transfers ownership of a new descriptor.
    /// The driver must close an unclaimed result after cancellation.
    fn completion_returns_fd(&self) -> (r: bool)
        default_ensures
            !r,
    {
        false
    }

    /// The way in which the operation runs on a driver.
    fn mode(&self, supports_completion: bool) -> (r: Mode)
        ensures
            r == if supports_completion {
                Mode::Completion
            } else {
                Mode::Polling
            },
    {
        if supports_completion {
            Mode::Completion
        } else {
            Mode::Polling
        }
    }

    /// The call that polling makes next.
    fn poll_call(&self) -> (r: Result<SystemCall, IoError>)
        default_ensures
            r == Err::<SystemCall, IoError>(no_polling()),
    {
        Err(polling_unsupported())
    }

    /// Take in the driver's answer to the request.
    fn poll_completion(&mut self, reply: Reply) -> (r: Poll<Result<Self::Output, IoError>>)
        requires
            reply.answers(old(self).token()),
            reply.settled() matches Settled::Result(result) ==> old(self).admits(result),
        default_ensures
            r == Poll::Ready(Err::<Self::Output, IoError>(no_completion())),
            *final(self) == *old(self),
    {
        Poll::Ready(Err(completion_unsupported()))
    }

    /// Build the entry by which the operation is submitted to a ring.
    fn build_completion_entry(&mut self, user_data: u64) -> (r: Result<CompletionEntry, IoError>)
        default_ensures
            r == Err::<CompletionEntry, IoError>(no_completion()),
            *final(self) == *old(self),
    {
        Err(completion_unsupported())
    }

    /// Prepare the next call by which the operation is started on Windows.
    fn submit_windows(&mut self) -> (r: Result<WindowsCall, IoError>)
        default_ensures
            r == Err::<WindowsCall, IoError>(no_completion()),
            *final(self) == *old(self),
    {
        Err(completion_unsupported())
    }
}

/// An answer settles an operation as it came: a result is handed on as it is and
/// ends the wait, a token is kept for as long as the result is not there, and a
/// refusal is handed on.
pub proof fn answers_settle_as_they_come(
    before: Option<usize>,
    after: Option<usize>,
    reply: Reply,
    r: Settled,
    result: i32,
    token: usize,
    error: IoError,
)
    requires
        exists|held: &mut Option<usize>|
            *held == before && *final(held) == after && #[trigger] call_ensures(
                settle,
                (held, reply),
                r,
            ),
    ensures
        reply == Reply::Submitted(CompletionIoResult::Completed(result)) || reply
            == Reply::Collected(Some(result)) ==> r == Settled::Result(result) && after is None,
        reply == Reply::Submitted(CompletionIoResult::Retry(token)) ==> r is Pending && after
            == Some(token),
        reply == Reply::Submitted(CompletionIoResult::SubmitErr(error)) ==> r == Settled::Refused(
            error,
        ) && after is None,
        reply == Reply::Collected(None) ==> r is Pending && after == before,
{
}

/// A count is a count, and a negated code the error of that code.
pub proof fn transfers_count_what_moved(system: System, result: i32, r: Result<usize, IoError>)
    requires
        call_ensures(transfer_result, (system, result), r),
    ensures
        r is Ok <==> result >= 0,
        r matches Ok(count) ==> count == result,
        r matches Err(IoError::Os(own, code)) ==> own == system && code == -result,
        i32::MIN < result < 0 ==> (r matches Err(error) && error is Os),
{
}

/// A read of a file counts what came. The end of a file is no error on Windows,
/// where code 38 says so; anywhere else that code is an error like any other.
pub proof fn reads_end_where_the_file_does(
    system: System,
    settled: Settled,
    r: Poll<Result<usize, IoError>>,
    result: i32,
    error: IoError,
)
    requires
        call_ensures(read_poll, (system, settled), r),
    ensures
        r is Pending <==> settled is Pending,
        settled == Settled::Result(result) && result >= 0 ==> (r matches Poll::Ready(Ok(count))
            && count == result),
        settled == Settled::Result(result) && i32::MIN < result < 0 ==> if system is Windows
            && result == -38 {
            r matches Poll::Ready(Ok(count)) && count == 0
        } else {
            r matches Poll::Ready(Err(IoError::Os(own, code))) && own == system && code == -result
        },
        settled == Settled::Result(i32::MIN)
            ==> (r matches Poll::Ready(Err(IoError::Simple(kind))) && kind
            is InvalidData),
        settled == Settled::Refused(error) ==> if system is Windows && (error matches IoError::Os(
            _,
            code,
        ) && code == 38) {
            r matches Poll::Ready(Ok(count)) && count == 0
        } else {
            r matches Poll::Ready(Err(own)) && own == error
        },
{
}

/// An operation asks the driver that it was made for, and no other: for the result
/// under its token where it has one, else to be submitted.
pub proof fn operations_ask_their_own_driver(
    owner: DriverId,
    token: Option<usize>,
    driver: DriverId,
    r: Result<Request, IoError>,
)
    requires
        call_ensures(request_for, (owner, token, driver), r),
    ensures
        r is Ok <==> owner.0 == driver.0,
        r matches Ok(Request::Collect(asked)) ==> token == Some(asked),
        r matches Ok(Request::Submit) ==> token is None,
        r matches Err(error) ==> (error matches IoError::Message(kind, _) && kind
            is InvalidInput),
{
}

/// What any operation asks next: to be submitted, or for the result under its
/// token. It runs by completion exactly where the driver can.
pub proof fn requests_follow_the_token<O: Op>(
    op: O,
    token: Option<usize>,
    request: Request,
    supports: bool,
    mode: Mode,
)
    requires
        call_ensures(<O as Op>::completion_token, (&op,), token),
        call_ensures(<O as Op>::request, (&op,), request),
        call_ensures(<O as Op>::mode, (&op, supports), mode),
    ensures
        token == op.token(),
        request matches Request::Collect(asked) ==> token == Some(asked),
        request is Submit <==> token is None,
        mode is Completion <==> supports,
{
}

/// An overlapped call has been started where it succeeded or goes on, which code
/// 997 says; every other code is its error.
pub proof fn overlapped_calls_go_on(error: Option<i32>, r: Result<(), IoError>)
    requires
        call_ensures(overlapped_started, (error,), r),
    ensures
        r is Ok <==> error is None || error == Some(997i32),
        r matches Err(own) ==> (own matches IoError::Os(system, code) && system is Windows && error
            == Some(code)),
{
}

/// What an operation cannot do is unsupported.
pub proof fn missing_ways_are_unsupported(
    polled: IoError,
    completed: IoError,
)
    requires
        call_ensures(polling_unsupported, (), polled),
        call_ensures(completion_unsupported, (), completed),
    ensures
        polled matches IoError::Message(kind, _) && kind is Unsupported,
        completed matches IoError::Message(kind, _) && kind is Unsupported,
{
}

} // verus!
