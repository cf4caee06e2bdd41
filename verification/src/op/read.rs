//! Reading from a stream.

use vstd::prelude::*;

use crate::error::{ErrorKind, IoError};
use crate::handle::{InnerRawHandle, RawOsHandle};
use crate::io::IoBufMut;
use crate::op::io_util::{
    completion_len, completion_len_spec, invalid_input, CompletionBuffer, ERROR_HANDLE_EOF,
};
use crate::op::{
    completion_unsupported, no_completion, settle, Cancelled, CompletionEntry, CompletionIoResult,
    Op, Opcode, Reply, Request, Settled, SystemCall, WindowsCall,
};
use crate::poll::{attempt_spec, poll_result_or_wait, Attempt, Interest, Poll};
use crate::system::System;

verus! {

/// A read into a buffer, which the operation owns until it is over.
pub struct ReadOp<'a, B> {
    pub handle: &'a InnerRawHandle,
    pub buf: CompletionBuffer<B>,
    pub completion_token: Option<usize>,
}

impl<'a, B: IoBufMut> ReadOp<'a, B> {
    pub fn new(handle: &'a InnerRawHandle, buf: B) -> (r: Self)
        ensures
            r.handle == handle,
            r.buf.value() == buf,
            r.buf is Boxed <==> handle.completion,
            r.completion_token is None,
    {
        ReadOp {
            handle,
            buf: CompletionBuffer::new(buf, handle.uses_completion()),
            completion_token: None,
        }
    }

    /// Reclaim the buffer of an operation that is not with its driver.
    pub fn take_bufs(self) -> (r: B)
        requires
            self.completion_token is None,
        ensures
            r == self.buf.value(),
    {
        self.buf.into_inner()
    }

    /// Give the operation up. One that is with its driver leaves its buffer there.
    pub fn cancel(self) -> (r: Option<Cancelled<Box<B>>>)
        ensures
            r == match self.completion_token {
                Some(token) => Some(
                    Cancelled {
                        driver: self.handle.driver,
                        token,
                        storage: Box::new(self.buf.value()),
                    },
                ),
                None => None,
            },
    {
        match self.completion_token {
            Some(token) => Some(
                Cancelled {
                    driver: self.handle.driver,
                    token,
                    storage: self.buf.into_stable_box(),
                },
            ),
            None => None,
        }
    }

    /// Take in the result of the call: bytes, or a reason to wait or to fail.
    pub fn poll_poll(&mut self, result: Result<usize, IoError>) -> (r: Attempt<usize>)
        requires
            result matches Ok(read) ==> read <= old(self).buf.value().room(),
        ensures
            r == attempt_spec(result, Interest::Readable),
            match result {
                Ok(read) => B::initialized(old(self).buf.value(), read, final(self).buf.value()),
                Err(_) => final(self).buf == old(self).buf,
            },
            final(self).buf is Boxed <==> old(self).buf is Boxed,
            final(self).handle == old(self).handle,
            final(self).completion_token == old(self).completion_token,
    {
        match result {
            Ok(read) => {
                let buf = self.buf.as_mut();
                buf.set_buf_init(read);
            },
            Err(_) => {},
        }
        poll_result_or_wait(result, Interest::Readable)
    }
}

/// What a read that completed comes to: on Windows the end of a file is a read
/// of nothing.
pub open spec fn read_done(system: System, result: i32) -> Result<usize, IoError> {
    if result >= 0 {
        Ok(result as usize)
    } else if system == System::Windows && result == -ERROR_HANDLE_EOF {
        Ok(0)
    } else {
        Err(IoError::Os(system, (-result) as i32))
    }
}

impl<'a, B: IoBufMut> Op for ReadOp<'a, B> {
    type Output = usize;

    open spec fn token(&self) -> Option<usize> {
        self.completion_token
    }

    /// A count within the buffer, or a code of the operating system.
    open spec fn admits(&self, result: i32) -> bool {
        i32::MIN < result && result <= self.buf.value().room()
    }

    fn completion_token(&self) -> (r: Option<usize>) {
        self.completion_token
    }

    fn poll_call(&self) -> (r: Result<SystemCall, IoError>)
        ensures
            r == match self.handle.handle {
                RawOsHandle::Fd(fd) => Ok::<SystemCall, IoError>(
                    SystemCall::Read { fd, len: self.buf.value().room() },
                ),
                RawOsHandle::Socket(socket) => if self.buf.value().room() <= u32::MAX {
                    Ok(
                        SystemCall::WsaRecv {
                            socket,
                            len: self.buf.value().room() as u32,
                            flags: 0,
                        },
                    )
                } else {
                    Err(invalid_input("read buffer is too large for Windows socket I/O"))
                },
                RawOsHandle::Handle(_) => Err(
                    IoError::Message(
                        ErrorKind::Unsupported,
                        "poll-based read currently supports sockets only on Windows",
                    ),
                ),
            },
    {
        let len: usize = self.buf.as_ref().buf_capacity();
        match self.handle.handle {
            RawOsHandle::Fd(fd) => Ok(SystemCall::Read { fd, len }),
            RawOsHandle::Socket(socket) => {
                if len <= u32::MAX as usize {
                    Ok(SystemCall::WsaRecv { socket, len: len as u32, flags: 0 })
                } else {
                    Err(
                        IoError::Message(
                            ErrorKind::InvalidInput,
                            "read buffer is too large for Windows socket I/O",
                        ),
                    )
                }
            },
            RawOsHandle::Handle(_) => Err(
                IoError::Message(
                    ErrorKind::Unsupported,
                    "poll-based read currently supports sockets only on Windows",
                ),
            ),
        }
    }

    fn poll_completion(&mut self, reply: Reply) -> (r: Poll<Result<usize, IoError>>)
        ensures
            r == match reply.settled() {
                Settled::Pending => Poll::Pending,
                Settled::Refused(error) => Poll::Ready(Err::<usize, IoError>(error)),
                Settled::Result(result) => Poll::Ready(
                    read_done(old(self).handle.system(), result),
                ),
            },
            match r {
                Poll::Ready(Ok(read)) => B::initialized(
                    old(self).buf.value(),
                    read,
                    final(self).buf.value(),
                ),
                _ => final(self).buf == old(self).buf,
            },
            final(self).buf is Boxed <==> old(self).buf is Boxed,
            final(self).handle == old(self).handle,
            final(self).completion_token == reply.token_after(old(self).completion_token),
    {
        match settle(&mut self.completion_token, reply) {
            Settled::Pending => Poll::Pending,
            Settled::Refused(error) => Poll::Ready(Err(error)),
            Settled::Result(result) => {
                let read: usize = if result >= 0 {
                    result as usize
                } else {
                    let system = self.handle.system();
                    if !matches!(system, System::Windows) || -result != ERROR_HANDLE_EOF {
                        return Poll::Ready(Err(IoError::Os(system, -result)));
                    }
                    0
                };
                let buf = self.buf.as_mut();
                buf.set_buf_init(read);
                Poll::Ready(Ok(read))
            },
        }
    }

    fn build_completion_entry(&mut self, user_data: u64) -> (r: Result<CompletionEntry, IoError>)
        ensures
            r == match (
                old(self).handle.handle,
                completion_len_spec(old(self).buf.value().room()),
            ) {
                (RawOsHandle::Fd(fd), Ok(len)) => Ok::<CompletionEntry, IoError>(
                    CompletionEntry { fd, opcode: Opcode::Read { len, offset: 0 }, user_data },
                ),
                (RawOsHandle::Fd(_), Err(error)) => Err(error),
                _ => Err(no_completion()),
            },
            *final(self) == *old(self),
    {
        match self.handle.handle {
            RawOsHandle::Fd(fd) => match completion_len(self.buf.as_ref().buf_capacity()) {
                Ok(len) => Ok(
                    CompletionEntry { fd, opcode: Opcode::Read { len, offset: 0 }, user_data },
                ),
                Err(error) => Err(error),
            },
            _ => Err(completion_unsupported()),
        }
    }

    fn submit_windows(&mut self) -> (r: Result<WindowsCall, IoError>)
        ensures
            r == match (
                old(self).handle.handle,
                completion_len_spec(old(self).buf.value().room()),
            ) {
                (RawOsHandle::Socket(socket), Ok(len)) => Ok::<WindowsCall, IoError>(
                    WindowsCall::WsaRecv { socket, len, flags: 0 },
                ),
                (RawOsHandle::Handle(handle), Ok(len)) => Ok(
                    WindowsCall::ReadFile { handle, len },
                ),
                (RawOsHandle::Fd(_), _) => Err(no_completion()),
                (_, Err(error)) => Err(error),
            },
            *final(self) == *old(self),
    {
        let len: u32 = match completion_len(self.buf.as_ref().buf_capacity()) {
            Ok(len) => len,
            Err(error) => {
                return match self.handle.handle {
                    RawOsHandle::Fd(_) => Err(completion_unsupported()),
                    _ => Err(error),
                };
            },
        };
        match self.handle.handle {
            RawOsHandle::Socket(socket) => Ok(WindowsCall::WsaRecv { socket, len, flags: 0 }),
            RawOsHandle::Handle(handle) => Ok(WindowsCall::ReadFile { handle, len }),
            RawOsHandle::Fd(_) => Err(completion_unsupported()),
        }
    }
}

/// A completed read reports the bytes that came and records as many in its buffer.
/// The end of a file, which Windows reports as an error, is a read of nothing; every
/// other code comes out as the error of its system, and the buffer stays as it was.
pub proof fn completed_reads_count_what_came<'a, B: IoBufMut>(
    before: ReadOp<'a, B>,
    after: ReadOp<'a, B>,
    reply: Reply,
    r: Poll<Result<usize, IoError>>,
    result: i32,
    token: usize,
    error: IoError,
)
    requires
        exists|op: &mut ReadOp<'a, B>|
            *op == before && *final(op) == after && #[trigger] call_ensures(
                <ReadOp<'a, B> as Op>::poll_completion,
                (op, reply),
                r,
            ),
    ensures
        (reply == Reply::Submitted(CompletionIoResult::Completed(result)) || reply
            == Reply::Collected(
            Some(result),
        )) ==> after.completion_token is None && (result >= 0 ==> (r matches
            Poll::Ready(Ok(count)) && count == result)),
        (reply == Reply::Submitted(CompletionIoResult::Completed(result)) || reply
            == Reply::Collected(
            Some(result),
        )) && i32::MIN < result < 0 ==> if before.handle.system() is Windows && result
            == -38 {
            r matches Poll::Ready(Ok(count)) && count == 0
        } else {
            r matches Poll::Ready(Err(IoError::Os(own, code))) && own
                == before.handle.system() && code == -result
        },
        reply == Reply::Submitted(CompletionIoResult::Retry(token)) ==> r is Pending
            && after.completion_token == Some(token),
        reply == Reply::Submitted(CompletionIoResult::SubmitErr(error))
            ==> after.completion_token is None
            && r == Poll::Ready(Err::<usize, IoError>(error)),
        reply == Reply::Collected(None) ==> r is Pending && after.completion_token
            == before.completion_token,
        match r {
            Poll::Ready(Ok(count)) => B::initialized(
                before.buf.value(),
                count,
                after.buf.value(),
            ),
            _ => after.buf == before.buf,
        },
        after.buf is Boxed <==> before.buf is Boxed,
        after.handle == before.handle,
{
}

/// A read asks for all the room of its buffer, at the start of what is there.
pub proof fn reads_ask_for_all_the_room<'a, B: IoBufMut>(
    before: ReadOp<'a, B>,
    after: ReadOp<'a, B>,
    user_data: u64,
    r: Result<CompletionEntry, IoError>,
)
    requires
        exists|op: &mut ReadOp<'a, B>|
            *op == before && *final(op) == after && #[trigger] call_ensures(
                <ReadOp<'a, B> as Op>::build_completion_entry,
                (op, user_data),
                r,
            ),
    ensures
        r matches Ok(entry) ==> {
            &&& before.handle.handle == RawOsHandle::Fd(entry.fd)
            &&& entry.user_data == user_data
            &&& entry.opcode matches Opcode::Read { len, offset } && len
                == before.buf.value().room()
                && offset == 0
        },
        r is Ok <==> before.handle.handle is Fd && before.buf.value().room() < 0x8000_0000,
        after == before,
{
}

/// On Windows a socket is received from and a file is read, for all the room of
/// the buffer.
pub proof fn windows_reads_ask_for_all_the_room<'a, B: IoBufMut>(
    before: ReadOp<'a, B>,
    after: ReadOp<'a, B>,
    r: Result<WindowsCall, IoError>,
)
    requires
        exists|op: &mut ReadOp<'a, B>|
            *op == before && *final(op) == after && #[trigger] call_ensures(
                <ReadOp<'a, B> as Op>::submit_windows,
                (op,),
                r,
            ),
    ensures
        before.handle.handle matches RawOsHandle::Socket(socket) ==> before.buf.value().room()
            < 0x8000_0000 ==> (r matches Ok(WindowsCall::WsaRecv { socket: own, len, flags }) && own
            == socket && len == before.buf.value().room() && flags == 0),
        before.handle.handle matches RawOsHandle::Handle(handle) ==> before.buf.value().room()
            < 0x8000_0000 ==> (r matches Ok(WindowsCall::ReadFile { handle: own, len }) && own
            == handle && len == before.buf.value().room()),
        r is Ok <==> !(before.handle.handle is Fd) && before.buf.value().room() < 0x8000_0000,
        after == before,
{
}

/// A polled read asks for all the room of its buffer, of its own handle.
pub proof fn polled_reads_ask_for_all_the_room<'a, B: IoBufMut>(
    op: ReadOp<'a, B>,
    r: Result<SystemCall, IoError>,
)
    requires
        call_ensures(<ReadOp<'a, B> as Op>::poll_call, (&op,), r),
    ensures
        op.handle.handle matches RawOsHandle::Fd(fd) ==> (r matches Ok(
            SystemCall::Read { fd: own, len },
        ) && own == fd && len == op.buf.value().room()),
        op.handle.handle matches RawOsHandle::Socket(socket) ==> if op.buf.value().room()
            < 0x1_0000_0000 {
            r matches Ok(SystemCall::WsaRecv { socket: own, len, flags }) && own == socket && len
                == op.buf.value().room() && flags == 0
        } else {
            r is Err
        },
        op.handle.handle is Handle ==> r is Err,
{
}

/// A polled read reports what its call gave and records as many bytes in its
/// buffer; it waits only where the call would have had to.
pub proof fn polled_reads_record_what_came<'a, B: IoBufMut>(
    before: ReadOp<'a, B>,
    after: ReadOp<'a, B>,
    result: Result<usize, IoError>,
    r: Attempt<usize>,
)
    requires
        exists|op: &mut ReadOp<'a, B>|
            *op == before && *final(op) == after && #[trigger] call_ensures(
                ReadOp::<'a, B>::poll_poll,
                (op, result),
                r,
            ),
    ensures
        r matches Attempt::Done(own) ==> own == result,
        r matches Attempt::AwaitReadiness(awaited) ==> awaited is Readable,
        r is AwaitReadiness <==> (result matches Err(error) && error.would_block()),
        match result {
            Ok(count) => B::initialized(before.buf.value(), count, after.buf.value()),
            Err(_) => after.buf == before.buf,
        },
        after.handle == before.handle && after.completion_token == before.completion_token,
{
}

/// A read that is with its driver leaves its buffer there, under its token.
pub proof fn cancelled_reads_leave_their_buffer<'a, B: IoBufMut>(
    op: ReadOp<'a, B>,
    r: Option<Cancelled<Box<B>>>,
)
    requires
        call_ensures(ReadOp::<'a, B>::cancel, (op,), r),
    ensures
        r is Some <==> op.completion_token is Some,
        r matches Some(left) ==> op.completion_token == Some(left.token) && left.driver
            == op.handle.driver && *left.storage == op.buf.value(),
{
}

/// A read is made for the handle it is given, with the driver not asked yet, and gives its buffer
/// back unchanged.
pub proof fn reads_are_made_for_their_handle<'a, B: IoBufMut>(
    handle: &'a InnerRawHandle,
    buf: B,
    made: ReadOp<'a, B>,
    back: B,
)
    requires
        call_ensures(ReadOp::<'a, B>::new, (handle, buf), made),
        call_ensures(ReadOp::<'a, B>::take_bufs, (made,), back),
    ensures
        made.handle == handle && made.completion_token is None,
        made.buf.value() == buf && (made.buf is Boxed <==> handle.completion),
        back == buf,
{
}

/// A read asks for the result under its token exactly while it has one.
pub proof fn reads_ask_under_their_token<'a, B: IoBufMut>(
    op: ReadOp<'a, B>,
    token: Option<usize>,
    request: Request,
)
    requires
        call_ensures(<ReadOp<'a, B> as Op>::completion_token, (&op,), token),
        call_ensures(<ReadOp<'a, B> as Op>::request, (&op,), request),
    ensures
        token == op.completion_token && op.token() == op.completion_token,
        request is Submit <==> op.completion_token is None,
        request matches Request::Collect(own) ==> op.completion_token == Some(own),
{
}

} // verus!
