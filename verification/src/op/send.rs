//! Sending on a connected socket.

use vstd::prelude::*;

use crate::error::{ErrorKind, IoError};
use crate::handle::{InnerRawHandle, RawOsHandle};
use crate::io::IoBuf;
use crate::op::io_util::{
    completion_len, completion_len_spec, invalid_input, transfer_len, transfer_len_spec,
    CompletionBuffer,
};
use crate::op::{
    completion_unsupported, no_completion, settle, transfer_poll, transfer_result, Cancelled,
    CompletionEntry, CompletionIoResult, Op, Opcode, Reply, Request, Settled, SystemCall,
    WindowsCall,
};
use crate::poll::{attempt_spec, poll_result_or_wait, Attempt, Interest, Poll};

verus! {

/// A send of the bytes of a buffer.
pub struct SendOp<'a, B> {
    pub handle: &'a InnerRawHandle,
    pub buf: CompletionBuffer<B>,
    pub completion_token: Option<usize>,
}

impl<'a, B: IoBuf> SendOp<'a, B> {
    pub fn new(handle: &'a InnerRawHandle, buf: B) -> (r: Self)
        ensures
            r.handle == handle,
            r.buf.value() == buf,
            r.buf is Boxed <==> handle.completion,
            r.completion_token is None,
    {
        SendOp {
            handle,
            buf: CompletionBuffer::new(buf, handle.uses_completion()),
            completion_token: None,
        }
    }

    /// Reclaim the buffer of an operation that is not with its driver.
    pub fn take_bufs(self) -> (r: B)
        requires
            self.completion_token is None,
        ensures
            r == self.buf.value(),
    {
        self.buf.into_inner()
    }

    /// Give the operation up. One that is with its driver leaves its buffer there.
    pub fn cancel(self) -> (r: Option<Cancelled<Box<B>>>)
        ensures
            r == match self.completion_token {
                Some(token) => Some(
                    Cancelled {
                        driver: self.handle.driver,
                        token,
                        storage: Box::new(self.buf.value()),
                    },
                ),
                None => None,
            },
    {
        match self.completion_token {
            Some(token) => Some(
                Cancelled {
                    driver: self.handle.driver,
                    token,
                    storage: self.buf.into_stable_box(),
                },
            ),
            None => None,
        }
    }

    /// Take in the result of the call: a count, or a reason to wait or to fail.
    pub fn poll_poll(&mut self, result: Result<usize, IoError>) -> (r: Attempt<usize>)
        ensures
            r == attempt_spec(result, Interest::Writable),
            *final(self) == *old(self),
    {
        poll_result_or_wait(result, Interest::Writable)
    }
}

impl<'a, B: IoBuf> Op for SendOp<'a, B> {
    type Output = usize;

    open spec fn token(&self) -> Option<usize> {
        self.completion_token
    }

    open spec fn admits(&self, result: i32) -> bool {
        true
    }

    fn completion_token(&self) -> (r: Option<usize>) {
        self.completion_token
    }

    fn poll_call(&self) -> (r: Result<SystemCall, IoError>)
        ensures
            r == match self.handle.handle {
                RawOsHandle::Fd(fd) => Ok::<SystemCall, IoError>(
                    SystemCall::Send { fd, len: self.buf.value().filled() },
                ),
                RawOsHandle::Socket(socket) => match transfer_len_spec(
                    self.buf.value().filled(),
                    "write buffer is too large for Windows socket I/O",
                ) {
                    Ok(len) => Ok(SystemCall::WsaSend { socket, len }),
                    Err(error) => Err(error),
                },
                RawOsHandle::Handle(_) => Err(
                    IoError::Message(
                        ErrorKind::Unsupported,
                        "poll-based send currently supports sockets only on Windows",
                    ),
                ),
            },
    {
        let filled: usize = self.buf.as_ref().buf_len();
        match self.handle.handle {
            RawOsHandle::Fd(fd) => Ok(SystemCall::Send { fd, len: filled }),
            RawOsHandle::Socket(socket) => match transfer_len(
                filled,
                "write buffer is too large for Windows socket I/O",
            ) {
                Ok(len) => Ok(SystemCall::WsaSend { socket, len }),
                Err(error) => Err(error),
            },
            RawOsHandle::Handle(_) => Err(
                IoError::Message(
                    ErrorKind::Unsupported,
                    "poll-based send currently supports sockets only on Windows",
                ),
            ),
        }
    }

    fn poll_completion(&mut self, reply: Reply) -> (r: Poll<Result<usize, IoError>>)
        ensures
            r == transfer_poll(old(self).handle.system(), reply),
            final(self).completion_token == reply.token_after(old(self).completion_token),
            final(self).handle == old(self).handle,
            final(self).buf == old(self).buf,
    {
        match settle(&mut self.completion_token, reply) {
            Settled::Pending => Poll::Pending,
            Settled::Refused(error) => Poll::Ready(Err(error)),
            Settled::Result(result) => Poll::Ready(transfer_result(self.handle.system(), result)),
        }
    }

    fn build_completion_entry(&mut self, user_data: u64) -> (r: Result<CompletionEntry, IoError>)
        ensures
            r == match (
                old(self).handle.handle,
                completion_len_spec(old(self).buf.value().filled()),
            ) {
                (RawOsHandle::Fd(fd), Ok(len)) => Ok::<CompletionEntry, IoError>(
                    CompletionEntry { fd, opcode: Opcode::Send { len }, user_data },
                ),
                (RawOsHandle::Fd(_), Err(error)) => Err(error),
                _ => Err(no_completion()),
            },
            *final(self) == *old(self),
    {
        match self.handle.handle {
            RawOsHandle::Fd(fd) => match completion_len(self.buf.as_ref().buf_len()) {
                Ok(len) => Ok(CompletionEntry { fd, opcode: Opcode::Send { len }, user_data }),
                Err(error) => Err(error),
            },
            _ => Err(completion_unsupported()),
        }
    }

    fn submit_windows(&mut self) -> (r: Result<WindowsCall, IoError>)
        ensures
            r == match old(self).handle.handle {
                RawOsHandle::Socket(socket) => match transfer_len_spec(
                    old(self).buf.value().filled(),
                    "write buffer is too large for Windows socket I/O",
                ) {
                    Ok(len) => Ok::<WindowsCall, IoError>(
                        WindowsCall::WsaSend { socket, len },
                    ),
                    Err(error) => Err(error),
                },
                RawOsHandle::Handle(_) => Err(
                    invalid_input("WSASend can be used only with sockets"),
                ),
                RawOsHandle::Fd(_) => Err(no_completion()),
            },
            *final(self) == *old(self),
    {
        let socket: u64 = match self.handle.handle {
            RawOsHandle::Socket(socket) => socket,
            RawOsHandle::Handle(_) => {
                return Err(
                    IoError::Message(
                        ErrorKind::InvalidInput,
                        "WSASend can be used only with sockets",
                    ),
                );
            },
            RawOsHandle::Fd(_) => {
                return Err(completion_unsupported());
            },
        };
        let filled: usize = self.buf.as_ref().buf_len();
        match transfer_len(filled, "write buffer is too large for Windows socket I/O") {
            Ok(len) => Ok(WindowsCall::WsaSend { socket, len }),
            Err(error) => Err(error),
        }
    }
}

/// A completed send reports the bytes that went; the buffer stays as it was.
pub proof fn completed_sends_count_what_went<'a, B: IoBuf>(
    before: SendOp<'a, B>,
    after: SendOp<'a, B>,
    reply: Reply,
    r: Poll<Result<usize, IoError>>,
    result: i32,
    token: usize,
    error: IoError,
)
    requires
        exists|op: &mut SendOp<'a, B>|
            *op == before && *final(op) == after && #[trigger] call_ensures(
                <SendOp<'a, B> as Op>::poll_completion,
                (op, reply),
                r,
            ),
    ensures
        (reply == Reply::Submitted(CompletionIoResult::Completed(result)) || reply
            == Reply::Collected(
            Some(result),
        )) ==> after.completion_token is None && (result >= 0 ==> (r matches
            Poll::Ready(Ok(count)) && count == result)) && (result < 0
                ==> (r matches Poll::Ready(Err(_)))),
        (reply == Reply::Submitted(CompletionIoResult::Completed(result)) || reply
            == Reply::Collected(
            Some(result),
        )) && i32::MIN < result < 0 ==> (r matches Poll::Ready(
            Err(IoError::Os(own, code)),
        ) && own == before.handle.system() && code == -result),
        reply == Reply::Submitted(CompletionIoResult::Retry(token)) ==> r is Pending
            && after.completion_token == Some(token),
        reply == Reply::Submitted(CompletionIoResult::SubmitErr(error))
            ==> after.completion_token is None
            && r == Poll::Ready(Err::<usize, IoError>(error)),
        reply == Reply::Collected(None) ==> r is Pending && after.completion_token
            == before.completion_token,
        after.buf == before.buf,
        after.handle == before.handle,
{
}

/// A send offers every byte of its buffer.
pub proof fn sends_offer_all_bytes<'a, B: IoBuf>(
    before: SendOp<'a, B>,
    after: SendOp<'a, B>,
    user_data: u64,
    r: Result<CompletionEntry, IoError>,
)
    requires
        exists|op: &mut SendOp<'a, B>|
            *op == before && *final(op) == after && #[trigger] call_ensures(
                <SendOp<'a, B> as Op>::build_completion_entry,
                (op, user_data),
                r,
            ),
    ensures
        r matches Ok(entry) ==> {
            &&& before.handle.handle == RawOsHandle::Fd(entry.fd)
            &&& entry.user_data == user_data
            &&& entry.opcode matches Opcode::Send { len } && len == before.buf.value().filled()
        },
        r is Ok <==> before.handle.handle is Fd && before.buf.value().filled() < 0x8000_0000,
        after == before,
{
}

/// On Windows a send offers every byte of its buffer to its socket.
pub proof fn windows_sends_offer_all_bytes<'a, B: IoBuf>(
    before: SendOp<'a, B>,
    after: SendOp<'a, B>,
    r: Result<WindowsCall, IoError>,
)
    requires
        exists|op: &mut SendOp<'a, B>|
            *op == before && *final(op) == after && #[trigger] call_ensures(
                <SendOp<'a, B> as Op>::submit_windows,
                (op,),
                r,
            ),
    ensures
        r matches Ok(call) ==> (call matches WindowsCall::WsaSend { socket, len }
            && before.handle.handle == RawOsHandle::Socket(socket) && len
            == before.buf.value().filled()),
        r is Ok <==> before.handle.handle is Socket && before.buf.value().filled() < 0x8000_0000,
        after == before,
{
}

/// A polled send offers every byte of its buffer to its own socket.
pub proof fn polled_sends_offer_all_bytes<'a, B: IoBuf>(
    op: SendOp<'a, B>,
    r: Result<SystemCall, IoError>,
)
    requires
        call_ensures(<SendOp<'a, B> as Op>::poll_call, (&op,), r),
    ensures
        op.handle.handle matches RawOsHandle::Fd(fd) ==> (r matches Ok(
            SystemCall::Send { fd: own, len },
        ) && own == fd && len == op.buf.value().filled()),
        op.handle.handle matches RawOsHandle::Socket(socket) ==> op.buf.value().filled()
            < 0x8000_0000 ==> (r matches Ok(SystemCall::WsaSend { socket: own, len }) && own
                == socket
            && len == op.buf.value().filled()),
        r is Err <==> op.handle.handle is Handle || (op.handle.handle is Socket
            && op.buf.value().filled() >= 0x8000_0000),
{
}

/// A polled send reports what its call gave; it waits, until the socket can be
/// written, only where the call would have had to.
pub proof fn polled_sends_report_what_went<'a, B: IoBuf>(
    before: SendOp<'a, B>,
    after: SendOp<'a, B>,
    result: Result<usize, IoError>,
    r: Attempt<usize>,
)
    requires
        exists|op: &mut SendOp<'a, B>|
            *op == before && *final(op) == after && #[trigger] call_ensures(
                SendOp::<'a, B>::poll_poll,
                (op, result),
                r,
            ),
    ensures
        r matches Attempt::Done(own) ==> own == result,
        r matches Attempt::AwaitReadiness(awaited) ==> awaited is Writable,
        r is AwaitReadiness <==> (result matches Err(error) && error.would_block()),
        after == before,
{
}

/// A send that is with its driver leaves its buffer there, under its token.
pub proof fn cancelled_sends_leave_their_buffer<'a, B: IoBuf>(
    op: SendOp<'a, B>,
    r: Option<Cancelled<Box<B>>>,
)
    requires
        call_ensures(SendOp::<'a, B>::cancel, (op,), r),
    ensures
        r is Some <==> op.completion_token is Some,
        r matches Some(left) ==> op.completion_token == Some(left.token) && left.driver
            == op.handle.driver && *left.storage == op.buf.value(),
{
}

/// A send is made for the handle it is given, with the driver not asked yet, and gives its buffer
/// back unchanged.
pub proof fn sends_are_made_for_their_handle<'a, B: IoBuf>(
    handle: &'a InnerRawHandle,
    buf: B,
    made: SendOp<'a, B>,
    back: B,
)
    requires
        call_ensures(SendOp::<'a, B>::new, (handle, buf), made),
        call_ensures(SendOp::<'a, B>::take_bufs, (made,), back),
    ensures
        made.handle == handle && made.completion_token is None,
        made.buf.value() == buf && (made.buf is Boxed <==> handle.completion),
        back == buf,
{
}

/// A send asks for the result under its token exactly while it has one.
pub proof fn sends_ask_under_their_token<'a, B: IoBuf>(
    op: SendOp<'a, B>,
    token: Option<usize>,
    request: Request,
)
    requires
        call_ensures(<SendOp<'a, B> as Op>::completion_token, (&op,), token),
        call_ensures(<SendOp<'a, B> as Op>::request, (&op,), request),
    ensures
        token == op.completion_token && op.token() == op.completion_token,
        request is Submit <==> op.completion_token is None,
        request matches Request::Collect(own) ==> op.completion_token == Some(own),
{
}

} // verus!
