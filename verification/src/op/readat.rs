//! Reading from a file at an offset.

use vstd::prelude::*;

use crate::error::{ErrorKind, IoError};
use crate::handle::{InnerRawHandle, RawOsHandle};
use crate::io::IoBufMut;
use crate::op::io_util::{
    invalid_input, positional_offset, positional_offset_spec, transfer_len, transfer_len_spec,
    CompletionBuffer,
};
use crate::op::{
    completion_unsupported, no_completion, read_poll, read_settled, settle, Cancelled,
    CompletionEntry, CompletionIoResult, Op, Opcode, Reply, Request, SystemCall, WindowsCall,
};
use crate::poll::Poll;

verus! {

/// A read at an offset, which leaves the cursor of the file alone.
pub struct ReadAtOp<'a, B> {
    pub handle: &'a InnerRawHandle,
    pub buf: CompletionBuffer<B>,
    pub offset: u64,
    pub completion_token: Option<usize>,
}

impl<'a, B: IoBufMut> ReadAtOp<'a, B> {
    pub fn new(handle: &'a InnerRawHandle, buf: B, offset: u64) -> (r: Self)
        ensures
            r.handle == handle,
            r.buf.value() == buf,
            r.buf is Boxed <==> handle.completion,
            r.offset == offset,
            r.completion_token is None,
    {
        ReadAtOp {
            handle,
            buf: CompletionBuffer::new(buf, handle.uses_completion()),
            offset,
            completion_token: None,
        }
    }

    /// Reclaim the buffer of an operation that is not with its driver.
    pub fn take_bufs(self) -> (r: B)
        requires
            self.completion_token is None,
        ensures
            r == self.buf.value(),
    {
        self.buf.into_inner()
    }

    /// Give the operation up. One that is with its driver leaves its buffer there.
    pub fn cancel(self) -> (r: Option<Cancelled<Box<B>>>)
        ensures
            r == match self.completion_token {
                Some(token) => Some(
                    Cancelled {
                        driver: self.handle.driver,
                        token,
                        storage: Box::new(self.buf.value()),
                    },
                ),
                None => None,
            },
    {
        match self.completion_token {
            Some(token) => Some(
                Cancelled {
                    driver: self.handle.driver,
                    token,
                    storage: self.buf.into_stable_box(),
                },
            ),
            None => None,
        }
    }
}

impl<'a, B: IoBufMut> Op for ReadAtOp<'a, B> {
    type Output = usize;

    open spec fn token(&self) -> Option<usize> {
        self.completion_token
    }

    /// A count within the buffer, or an error.
    open spec fn admits(&self, result: i32) -> bool {
        result <= self.buf.value().room()
    }

    fn completion_token(&self) -> (r: Option<usize>) {
        self.completion_token
    }

    fn poll_completion(&mut self, reply: Reply) -> (r: Poll<Result<usize, IoError>>)
        ensures
            r == read_settled(old(self).handle.system(), reply.settled()),
            match r {
                Poll::Ready(Ok(read)) => B::initialized(
                    old(self).buf.value(),
                    read,
                    final(self).buf.value(),
                ),
                _ => final(self).buf == old(self).buf,
            },
            final(self).completion_token == reply.token_after(old(self).completion_token),
            final(self).buf is Boxed <==> old(self).buf is Boxed,
            final(self).handle == old(self).handle,
            final(self).offset == old(self).offset,
    {
        let settled = settle(&mut self.completion_token, reply);
        let polled = read_poll(self.handle.system(), settled);
        if let Poll::Ready(Ok(read)) = &polled {
            let buf = self.buf.as_mut();
            buf.set_buf_init(*read);
        }
        polled
    }

    fn build_completion_entry(&mut self, user_data: u64) -> (r: Result<CompletionEntry, IoError>)
        ensures
            r == match (
                old(self).handle.handle,
                transfer_len_spec(
                    old(self).buf.value().room(),
                    "read buffer is too large for io_uring",
                ),
                positional_offset_spec(old(self).offset),
            ) {
                (RawOsHandle::Fd(fd), Ok(len), Ok(offset)) => Ok::<CompletionEntry, IoError>(
                    CompletionEntry { fd, opcode: Opcode::Read { len, offset }, user_data },
                ),
                (RawOsHandle::Fd(_), Err(error), _) => Err(error),
                (RawOsHandle::Fd(_), _, Err(error)) => Err(error),
                _ => Err(no_completion()),
            },
            *final(self) == *old(self),
    {
        let fd: i32 = match self.handle.handle {
            RawOsHandle::Fd(fd) => fd,
            _ => {
                return Err(completion_unsupported());
            },
        };
        let capacity: usize = self.buf.as_ref().buf_capacity();
        let len: u32 = match transfer_len(capacity, "read buffer is too large for io_uring") {
            Ok(len) => len,
            Err(error) => {
                return Err(error);
            },
        };
        match positional_offset(self.offset) {
            Ok(offset) => Ok(
                CompletionEntry { fd, opcode: Opcode::Read { len, offset }, user_data },
            ),
            Err(error) => Err(error),
        }
    }

    fn submit_windows(&mut self) -> (r: Result<WindowsCall, IoError>)
        ensures
            r == match old(self).handle.handle {
                RawOsHandle::Handle(handle) => match transfer_len_spec(
                    old(self).buf.value().room(),
                    "read buffer is too large for Windows file I/O",
                ) {
                    Ok(len) => Ok::<WindowsCall, IoError>(
                        WindowsCall::ReadFileAt {
                            handle,
                            len,
                            offset_low: (old(self).offset % 0x1_0000_0000) as u32,
                            offset_high: (old(self).offset / 0x1_0000_0000) as u32,
                        },
                    ),
                    Err(error) => Err(error),
                },
                RawOsHandle::Socket(_) => Err(
                    invalid_input("ReadAtOp expects a file handle, not a socket"),
                ),
                RawOsHandle::Fd(_) => Err(no_completion()),
            },
            *final(self) == *old(self),
    {
        let handle: u64 = match self.handle.handle {
            RawOsHandle::Handle(handle) => handle,
            RawOsHandle::Socket(_) => {
                return Err(
                    IoError::Message(
                        ErrorKind::InvalidInput,
                        "ReadAtOp expects a file handle, not a socket",
                    ),
                );
            },
            RawOsHandle::Fd(_) => {
                return Err(completion_unsupported());
            },
        };
        let capacity: usize = self.buf.as_ref().buf_capacity();
        match transfer_len(capacity, "read buffer is too large for Windows file I/O") {
            Ok(len) => Ok(
                WindowsCall::ReadFileAt {
                    handle,
                    len,
                    offset_low: (self.offset % 0x1_0000_0000) as u32,
                    offset_high: (self.offset / 0x1_0000_0000) as u32,
                },
            ),
            Err(error) => Err(error),
        }
    }
}

/// A read at an offset asks for that very offset, and for all the room of its
/// buffer; it is submitted wherever a signed length and a signed offset can hold
/// the two.
pub proof fn reads_ask_for_their_own_offset<'a, B: IoBufMut>(
    before: ReadAtOp<'a, B>,
    after: ReadAtOp<'a, B>,
    user_data: u64,
    r: Result<CompletionEntry, IoError>,
)
    requires
        exists|op: &mut ReadAtOp<'a, B>|
            *op == before && *final(op) == after && #[trigger] call_ensures(
                <ReadAtOp<'a, B> as Op>::build_completion_entry,
                (op, user_data),
                r,
            ),
    ensures
        after == before,
        r matches Ok(entry) ==> {
            &&& before.handle.handle == RawOsHandle::Fd(entry.fd)
            &&& entry.user_data == user_data
            &&& entry.opcode matches Opcode::Read { len, offset } && offset == before.offset && len
                == before.buf.value().room()
        },
        r is Ok <==> before.handle.handle is Fd && before.buf.value().room() <= 0x7fff_ffff
            && before.offset <= 0x7fff_ffff_ffff_ffff,
{
}

/// A completed read reports the bytes that came and records as many in its buffer.
/// The end of a file, which Windows reports as an error, is a read of nothing.
pub proof fn completed_positional_reads_count_what_came<'a, B: IoBufMut>(
    before: ReadAtOp<'a, B>,
    after: ReadAtOp<'a, B>,
    reply: Reply,
    r: Poll<Result<usize, IoError>>,
    result: i32,
    token: usize,
    error: IoError,
)
    requires
        exists|op: &mut ReadAtOp<'a, B>|
            *op == before && *final(op) == after && #[trigger] call_ensures(
                <ReadAtOp<'a, B> as Op>::poll_completion,
                (op, reply),
                r,
            ),
    ensures
        (reply == Reply::Submitted(CompletionIoResult::Completed(result)) || reply
            == Reply::Collected(
            Some(result),
        )) ==> after.completion_token is None && (result >= 0 ==> (r matches
            Poll::Ready(Ok(count)) && count == result)),
        (reply == Reply::Submitted(CompletionIoResult::Completed(result)) || reply
            == Reply::Collected(
            Some(result),
        )) && i32::MIN < result < 0 ==> if before.handle.system() is Windows && result
            == -38 {
            r matches Poll::Ready(Ok(count)) && count == 0
        } else {
            r matches Poll::Ready(Err(IoError::Os(own, code))) && own
                == before.handle.system() && code == -result
        },
        reply == Reply::Submitted(CompletionIoResult::Retry(token)) ==> r is Pending
            && after.completion_token == Some(token),
        reply == Reply::Submitted(CompletionIoResult::SubmitErr(error))
            ==> after.completion_token is None
            && if before.handle.system() is Windows && (error matches IoError::Os(_, code) && code
            == 38) {
            r matches Poll::Ready(Ok(count)) && count == 0
        } else {
            r == Poll::Ready(Err::<usize, IoError>(error))
        },
        reply == Reply::Collected(None) ==> r is Pending && after.completion_token
            == before.completion_token,
        match r {
            Poll::Ready(Ok(count)) => B::initialized(
                before.buf.value(),
                count,
                after.buf.value(),
            ),
            _ => after.buf == before.buf,
        },
        after.buf is Boxed <==> before.buf is Boxed,
        after.handle == before.handle,
        after.offset == before.offset,
{
}

/// On Windows the two halves of the offset make up the very offset of the read,
/// which asks for all the room of its buffer.
pub proof fn windows_reads_ask_for_their_own_offset<'a, B: IoBufMut>(
    before: ReadAtOp<'a, B>,
    after: ReadAtOp<'a, B>,
    r: Result<WindowsCall, IoError>,
)
    requires
        exists|op: &mut ReadAtOp<'a, B>|
            *op == before && *final(op) == after && #[trigger] call_ensures(
                <ReadAtOp<'a, B> as Op>::submit_windows,
                (op,),
                r,
            ),
    ensures
        r matches Ok(call) ==> (call matches WindowsCall::ReadFileAt {
            handle,
            len,
            offset_low,
            offset_high,
        } && before.handle.handle == RawOsHandle::Handle(handle) && len
            == before.buf.value().room() && offset_low + offset_high * 0x1_0000_0000
            == before.offset),
        r is Ok <==> before.handle.handle is Handle && before.buf.value().room() < 0x8000_0000,
        after == before,
{
}

/// A read that is with its driver leaves its buffer there, under its token.
pub proof fn cancelled_positional_reads_leave_their_buffer<'a, B: IoBufMut>(
    op: ReadAtOp<'a, B>,
    r: Option<Cancelled<Box<B>>>,
)
    requires
        call_ensures(ReadAtOp::<'a, B>::cancel, (op,), r),
    ensures
        r is Some <==> op.completion_token is Some,
        r matches Some(left) ==> op.completion_token == Some(left.token) && left.driver
            == op.handle.driver && *left.storage == op.buf.value(),
{
}

/// A read is made for the handle, the buffer and the offset it is given.
pub proof fn positional_reads_keep_their_offset<'a, B: IoBufMut>(
    handle: &'a InnerRawHandle,
    buf: B,
    offset: u64,
    op: ReadAtOp<'a, B>,
)
    requires
        call_ensures(ReadAtOp::<'a, B>::new, (handle, buf, offset), op),
    ensures
        op.offset == offset && op.handle == handle && op.buf.value() == buf && op.completion_token
            is None,
{
}

/// A positional read is made for the handle it is given, with the driver not asked yet, and gives its buffer
/// back unchanged.
pub proof fn positional_reads_are_made_for_their_handle<'a, B: IoBufMut>(
    handle: &'a InnerRawHandle,
    buf: B,
    offset: u64,
    made: ReadAtOp<'a, B>,
    back: B,
)
    requires
        call_ensures(ReadAtOp::<'a, B>::new, (handle, buf, offset), made),
        call_ensures(ReadAtOp::<'a, B>::take_bufs, (made,), back),
    ensures
        made.handle == handle && made.completion_token is None,
        made.buf.value() == buf && (made.buf is Boxed <==> handle.completion),
        made.offset == offset,
        back == buf,
{
}

/// A positional read asks for the result under its token exactly while it has one.
pub proof fn positional_reads_ask_under_their_token<'a, B: IoBufMut>(
    op: ReadAtOp<'a, B>,
    token: Option<usize>,
    request: Request,
)
    requires
        call_ensures(<ReadAtOp<'a, B> as Op>::completion_token, (&op,), token),
        call_ensures(<ReadAtOp<'a, B> as Op>::request, (&op,), request),
    ensures
        token == op.completion_token && op.token() == op.completion_token,
        request is Submit <==> op.completion_token is None,
        request matches Request::Collect(own) ==> op.completion_token == Some(own),
{
}

} // verus!
