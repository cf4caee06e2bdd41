//! Receiving from a connected socket.

use vstd::prelude::*;

use crate::error::{ErrorKind, IoError};
use crate::handle::{InnerRawHandle, RawOsHandle};
use crate::io::IoBufMut;
use crate::op::io_util::{
    completion_len, completion_len_spec, invalid_input, transfer_len, transfer_len_spec,
    CompletionBuffer,
};
use crate::op::{
    completion_unsupported, no_completion, settle, transfer_poll, transfer_result, Cancelled,
    CompletionEntry, CompletionIoResult, Op, Opcode, Reply, Request, Settled, SystemCall,
    WindowsCall,
};
use crate::poll::{attempt_spec, poll_result_or_wait, Attempt, Interest, Poll};

verus! {

/// Receive without taking the data off the queue.
pub const MSG_PEEK: i32 = 2;

/// A receive into a buffer. A peek leaves the data where it is.
pub struct RecvOp<'a, B> {
    pub handle: &'a InnerRawHandle,
    pub buf: CompletionBuffer<B>,
    pub completion_token: Option<usize>,
    pub peek: bool,
}

/// The flags of a receive.
pub open spec fn peek_flags(peek: bool) -> i32 {
    if peek {
        MSG_PEEK
    } else {
        0
    }
}

pub fn receive_flags(peek: bool) -> (r: i32)
    ensures
        r == peek_flags(peek),
{
    if peek {
        MSG_PEEK
    } else {
        0
    }
}

impl<'a, B: IoBufMut> RecvOp<'a, B> {
    pub fn new(handle: &'a InnerRawHandle, buf: B) -> (r: Self)
        ensures
            r.handle == handle,
            r.buf.value() == buf,
            r.buf is Boxed <==> handle.completion,
            !r.peek,
            r.completion_token is None,
    {
        RecvOp {
            handle,
            buf: CompletionBuffer::new(buf, handle.uses_completion()),
            peek: false,
            completion_token: None,
        }
    }

    pub fn new_peek(handle: &'a InnerRawHandle, buf: B) -> (r: Self)
        ensures
            r.handle == handle,
            r.buf.value() == buf,
            r.buf is Boxed <==> handle.completion,
            r.peek,
            r.completion_token is None,
    {
        RecvOp {
            handle,
            buf: CompletionBuffer::new(buf, handle.uses_completion()),
            peek: true,
            completion_token: None,
        }
    }

    /// Reclaim the buffer of an operation that is not with its driver.
    pub fn take_bufs(self) -> (r: B)
        requires
            self.completion_token is None,
        ensures
            r == self.buf.value(),
    {
        self.buf.into_inner()
    }

    /// Give the operation up. One that is with its driver leaves its buffer there.
    pub fn cancel(self) -> (r: Option<Cancelled<Box<B>>>)
        ensures
            r == match self.completion_token {
                Some(token) => Some(
                    Cancelled {
                        driver: self.handle.driver,
                        token,
                        storage: Box::new(self.buf.value()),
                    },
                ),
                None => None,
            },
    {
        match self.completion_token {
            Some(token) => Some(
                Cancelled {
                    driver: self.handle.driver,
                    token,
                    storage: self.buf.into_stable_box(),
                },
            ),
            None => None,
        }
    }

    /// Take in the result of the call: bytes, or a reason to wait or to fail.
    pub fn poll_poll(&mut self, result: Result<usize, IoError>) -> (r: Attempt<usize>)
        requires
            result matches Ok(read) ==> read <= old(self).buf.value().room(),
        ensures
            r == attempt_spec(result, Interest::Readable),
            match result {
                Ok(read) => B::initialized(old(self).buf.value(), read, final(self).buf.value()),
                Err(_) => final(self).buf == old(self).buf,
            },
            final(self).buf is Boxed <==> old(self).buf is Boxed,
            final(self).handle == old(self).handle,
            final(self).completion_token == old(self).completion_token,
            final(self).peek == old(self).peek,
    {
        match result {
            Ok(read) => {
                let buf = self.buf.as_mut();
                buf.set_buf_init(read);
            },
            Err(_) => {},
        }
        poll_result_or_wait(result, Interest::Readable)
    }
}

impl<'a, B: IoBufMut> Op for RecvOp<'a, B> {
    type Output = usize;

    open spec fn token(&self) -> Option<usize> {
        self.completion_token
    }

    /// A count within the buffer, or an error.
    open spec fn admits(&self, result: i32) -> bool {
        result <= self.buf.value().room()
    }

    fn completion_token(&self) -> (r: Option<usize>) {
        self.completion_token
    }

    fn poll_call(&self) -> (r: Result<SystemCall, IoError>)
        ensures
            r == match self.handle.handle {
                RawOsHandle::Fd(fd) => Ok::<SystemCall, IoError>(
                    SystemCall::Recv {
                        fd,
                        len: self.buf.value().room(),
                        flags: peek_flags(self.peek),
                    },
                ),
                RawOsHandle::Socket(socket) => match transfer_len_spec(
                    self.buf.value().room(),
                    "read buffer is too large for Windows socket I/O",
                ) {
                    Ok(len) => Ok(
                        SystemCall::WsaRecv { socket, len, flags: peek_flags(self.peek) as u32 },
                    ),
                    Err(error) => Err(error),
                },
                RawOsHandle::Handle(_) => Err(
                    IoError::Message(
                        ErrorKind::Unsupported,
                        "poll-based recv currently supports sockets only on Windows",
                    ),
                ),
            },
    {
        let capacity: usize = self.buf.as_ref().buf_capacity();
        let flags: i32 = receive_flags(self.peek);
        match self.handle.handle {
            RawOsHandle::Fd(fd) => Ok(SystemCall::Recv { fd, len: capacity, flags }),
            RawOsHandle::Socket(socket) => match transfer_len(
                capacity,
                "read buffer is too large for Windows socket I/O",
            ) {
                Ok(len) => Ok(SystemCall::WsaRecv { socket, len, flags: flags as u32 }),
                Err(error) => Err(error),
            },
            RawOsHandle::Handle(_) => Err(
                IoError::Message(
                    ErrorKind::Unsupported,
                    "poll-based recv currently supports sockets only on Windows",
                ),
            ),
        }
    }

    fn poll_completion(&mut self, reply: Reply) -> (r: Poll<Result<usize, IoError>>)
        ensures
            r == transfer_poll(old(self).handle.system(), reply),
            match r {
                Poll::Ready(Ok(read)) => B::initialized(
                    old(self).buf.value(),
                    read,
                    final(self).buf.value(),
                ),
                _ => final(self).buf == old(self).buf,
            },
            final(self).completion_token == reply.token_after(old(self).completion_token),
            final(self).buf is Boxed <==> old(self).buf is Boxed,
            final(self).handle == old(self).handle,
            final(self).peek == old(self).peek,
    {
        match settle(&mut self.completion_token, reply) {
            Settled::Pending => Poll::Pending,
            Settled::Refused(error) => Poll::Ready(Err(error)),
            Settled::Result(result) => {
                let transfer = transfer_result(self.handle.system(), result);
                if let Ok(read) = &transfer {
                    let buf = self.buf.as_mut();
                    buf.set_buf_init(*read);
                }
                Poll::Ready(transfer)
            },
        }
    }

    fn build_completion_entry(&mut self, user_data: u64) -> (r: Result<CompletionEntry, IoError>)
        ensures
            r == match (
                old(self).handle.handle,
                completion_len_spec(old(self).buf.value().room()),
            ) {
                (RawOsHandle::Fd(fd), Ok(len)) => Ok::<CompletionEntry, IoError>(
                    CompletionEntry {
                        fd,
                        opcode: Opcode::Recv { len, flags: peek_flags(old(self).peek) },
                        user_data,
                    },
                ),
                (RawOsHandle::Fd(_), Err(error)) => Err(error),
                _ => Err(no_completion()),
            },
            *final(self) == *old(self),
    {
        match self.handle.handle {
            RawOsHandle::Fd(fd) => match completion_len(self.buf.as_ref().buf_capacity()) {
                Ok(len) => Ok(
                    CompletionEntry {
                        fd,
                        opcode: Opcode::Recv { len, flags: receive_flags(self.peek) },
                        user_data,
                    },
                ),
                Err(error) => Err(error),
            },
            _ => Err(completion_unsupported()),
        }
    }

    fn submit_windows(&mut self) -> (r: Result<WindowsCall, IoError>)
        ensures
            r == match old(self).handle.handle {
                RawOsHandle::Socket(socket) => match transfer_len_spec(
                    old(self).buf.value().room(),
                    "read buffer is too large for Windows socket I/O",
                ) {
                    Ok(len) => Ok::<WindowsCall, IoError>(
                        WindowsCall::WsaRecv {
                            socket,
                            len,
                            flags: peek_flags(old(self).peek) as u32,
                        },
                    ),
                    Err(error) => Err(error),
                },
                RawOsHandle::Handle(_) => Err(invalid_input("WSARecv requires a socket handle")),
                RawOsHandle::Fd(_) => Err(no_completion()),
            },
            *final(self) == *old(self),
    {
        let socket: u64 = match self.handle.handle {
            RawOsHandle::Socket(socket) => socket,
            RawOsHandle::Handle(_) => {
                return Err(
                    IoError::Message(ErrorKind::InvalidInput, "WSARecv requires a socket handle"),
                );
            },
            RawOsHandle::Fd(_) => {
                return Err(completion_unsupported());
            },
        };
        let capacity: usize = self.buf.as_ref().buf_capacity();
        match transfer_len(capacity, "read buffer is too large for Windows socket I/O") {
            Ok(len) => Ok(
                WindowsCall::WsaRecv { socket, len, flags: receive_flags(self.peek) as u32 },
            ),
            Err(error) => Err(error),
        }
    }
}

/// A completed receive reports the bytes that came and records as many in its
/// buffer; an error leaves the buffer as it was.
pub proof fn completed_receives_count_what_came<'a, B: IoBufMut>(
    before: RecvOp<'a, B>,
    after: RecvOp<'a, B>,
    reply: Reply,
    r: Poll<Result<usize, IoError>>,
    result: i32,
    token: usize,
    error: IoError,
)
    requires
        exists|op: &mut RecvOp<'a, B>|
            *op == before && *final(op) == after && #[trigger] call_ensures(
                <RecvOp<'a, B> as Op>::poll_completion,
                (op, reply),
                r,
            ),
    ensures
        (reply == Reply::Submitted(CompletionIoResult::Completed(result)) || reply
            == Reply::Collected(
            Some(result),
        )) ==> after.completion_token is None && (result >= 0 ==> (r matches
            Poll::Ready(Ok(count)) && count == result)) && (result < 0
                ==> (r matches Poll::Ready(Err(_)))),
        (reply == Reply::Submitted(CompletionIoResult::Completed(result)) || reply
            == Reply::Collected(
            Some(result),
        )) && i32::MIN < result < 0 ==> (r matches Poll::Ready(
            Err(IoError::Os(own, code)),
        ) && own == before.handle.system() && code == -result),
        reply == Reply::Submitted(CompletionIoResult::Retry(token)) ==> r is Pending
            && after.completion_token == Some(token),
        reply == Reply::Submitted(CompletionIoResult::SubmitErr(error))
            ==> after.completion_token is None
            && r == Poll::Ready(Err::<usize, IoError>(error)),
        reply == Reply::Collected(None) ==> r is Pending && after.completion_token
            == before.completion_token,
        match r {
            Poll::Ready(Ok(count)) => B::initialized(
                before.buf.value(),
                count,
                after.buf.value(),
            ),
            _ => after.buf == before.buf,
        },
        after.buf is Boxed <==> before.buf is Boxed,
        after.handle == before.handle,
        after.peek == before.peek,
{
}

/// A receive asks for all the room of its buffer; only a peek, by flag 2, leaves
/// the data queued.
pub proof fn receives_ask_for_all_the_room<'a, B: IoBufMut>(
    before: RecvOp<'a, B>,
    after: RecvOp<'a, B>,
    user_data: u64,
    r: Result<CompletionEntry, IoError>,
)
    requires
        exists|op: &mut RecvOp<'a, B>|
            *op == before && *final(op) == after && #[trigger] call_ensures(
                <RecvOp<'a, B> as Op>::build_completion_entry,
                (op, user_data),
                r,
            ),
    ensures
        r matches Ok(entry) ==> {
            &&& before.handle.handle == RawOsHandle::Fd(entry.fd)
            &&& entry.user_data == user_data
            &&& entry.opcode matches Opcode::Recv { len, flags } && len == before.buf.value().room()
                && flags == if before.peek { 2i32 } else { 0i32 }
        },
        r is Ok <==> before.handle.handle is Fd && before.buf.value().room() < 0x8000_0000,
        after == before,
{
}

/// On Windows a receive asks its socket for all the room of the buffer.
pub proof fn windows_receives_ask_for_all_the_room<'a, B: IoBufMut>(
    before: RecvOp<'a, B>,
    after: RecvOp<'a, B>,
    r: Result<WindowsCall, IoError>,
)
    requires
        exists|op: &mut RecvOp<'a, B>|
            *op == before && *final(op) == after && #[trigger] call_ensures(
                <RecvOp<'a, B> as Op>::submit_windows,
                (op,),
                r,
            ),
    ensures
        before.handle.handle matches RawOsHandle::Socket(socket) ==> before.buf.value().room()
            < 0x8000_0000 ==> (r matches Ok(WindowsCall::WsaRecv { socket: own, len, flags }) && own
            == socket && len == before.buf.value().room() && flags == if before.peek {
            2u32
        } else {
            0u32
        }),
        r is Ok <==> before.handle.handle is Socket && before.buf.value().room() < 0x8000_0000,
        after == before,
{
}

/// A polled receive asks its own socket for all the room of its buffer.
pub proof fn polled_receives_ask_for_all_the_room<'a, B: IoBufMut>(
    op: RecvOp<'a, B>,
    r: Result<SystemCall, IoError>,
)
    requires
        call_ensures(<RecvOp<'a, B> as Op>::poll_call, (&op,), r),
    ensures
        op.handle.handle matches RawOsHandle::Fd(fd) ==> (r matches Ok(
            SystemCall::Recv { fd: own, len, flags },
        ) && own == fd && len == op.buf.value().room() && flags == if op.peek {
            2i32
        } else {
            0i32
        }),
        op.handle.handle matches RawOsHandle::Socket(socket)
            ==> op.buf.value().room() < 0x8000_0000
                ==> (r matches Ok(SystemCall::WsaRecv { socket: own, len, flags }) && own
                    == socket && len
            == op.buf.value().room() && flags == if op.peek {
            2u32
        } else {
            0u32
        }),
        r is Err <==> op.handle.handle is Handle || (op.handle.handle is Socket
            && op.buf.value().room() >= 0x8000_0000),
{
}

/// A polled receive reports what its call gave and records as many bytes in its
/// buffer; it waits only where the call would have had to.
pub proof fn polled_receives_record_what_came<'a, B: IoBufMut>(
    before: RecvOp<'a, B>,
    after: RecvOp<'a, B>,
    result: Result<usize, IoError>,
    r: Attempt<usize>,
)
    requires
        exists|op: &mut RecvOp<'a, B>|
            *op == before && *final(op) == after && #[trigger] call_ensures(
                RecvOp::<'a, B>::poll_poll,
                (op, result),
                r,
            ),
    ensures
        r matches Attempt::Done(own) ==> own == result,
        r matches Attempt::AwaitReadiness(awaited) ==> awaited is Readable,
        r is AwaitReadiness <==> (result matches Err(error) && error.would_block()),
        match result {
            Ok(count) => B::initialized(before.buf.value(), count, after.buf.value()),
            Err(_) => after.buf == before.buf,
        },
        after.handle == before.handle && after.completion_token == before.completion_token
            && after.peek == before.peek,
{
}

/// A receive that is with its driver leaves its buffer there, under its token.
pub proof fn cancelled_receives_leave_their_buffer<'a, B: IoBufMut>(
    op: RecvOp<'a, B>,
    r: Option<Cancelled<Box<B>>>,
)
    requires
        call_ensures(RecvOp::<'a, B>::cancel, (op,), r),
    ensures
        r is Some <==> op.completion_token is Some,
        r matches Some(left) ==> op.completion_token == Some(left.token) && left.driver
            == op.handle.driver && *left.storage == op.buf.value(),
{
}

/// A receive takes the data; a peek leaves it queued.
pub proof fn only_peeks_peek<'a, B: IoBufMut>(
    handle: &'a InnerRawHandle,
    buf: B,
    taking: RecvOp<'a, B>,
    peeking: RecvOp<'a, B>,
)
    requires
        call_ensures(RecvOp::<'a, B>::new, (handle, buf), taking),
        call_ensures(RecvOp::<'a, B>::new_peek, (handle, buf), peeking),
    ensures
        !taking.peek && peeking.peek,
        taking.handle == handle && peeking.handle == handle,
        taking.buf.value() == buf && peeking.buf.value() == buf,
        taking.completion_token is None && peeking.completion_token is None,
{
}

/// A receive is made for the handle it is given, with the driver not asked yet, and gives its buffer
/// back unchanged.
pub proof fn receives_are_made_for_their_handle<'a, B: IoBufMut>(
    handle: &'a InnerRawHandle,
    buf: B,
    made: RecvOp<'a, B>,
    back: B,
)
    requires
        call_ensures(RecvOp::<'a, B>::new, (handle, buf), made),
        call_ensures(RecvOp::<'a, B>::take_bufs, (made,), back),
    ensures
        made.handle == handle && made.completion_token is None,
        made.buf.value() == buf && (made.buf is Boxed <==> handle.completion),
        !made.peek,
        back == buf,
{
}

/// A receive asks for the result under its token exactly while it has one.
pub proof fn receives_ask_under_their_token<'a, B: IoBufMut>(
    op: RecvOp<'a, B>,
    token: Option<usize>,
    request: Request,
)
    requires
        call_ensures(<RecvOp<'a, B> as Op>::completion_token, (&op,), token),
        call_ensures(<RecvOp<'a, B> as Op>::request, (&op,), request),
    ensures
        token == op.completion_token && op.token() == op.completion_token,
        request is Submit <==> op.completion_token is None,
        request matches Request::Collect(own) ==> op.completion_token == Some(own),
{
}

/// Only a peek has a flag, and it is 2.
pub proof fn only_peeks_have_a_flag(
    peek: bool,
    r: i32,
)
    requires
        call_ensures(receive_flags, (peek,), r),
    ensures
        r == if peek { 2i32 } else { 0i32 },
{
}

} // verus!
