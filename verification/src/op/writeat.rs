//! Writing to a file at an offset.

use vstd::prelude::*;

use crate::error::{ErrorKind, IoError};
use crate::handle::{InnerRawHandle, RawOsHandle};
use crate::io::IoBuf;
use crate::op::io_util::{
    invalid_input, positional_offset, positional_offset_spec, transfer_len, transfer_len_spec,
    CompletionBuffer,
};
use crate::op::{
    completion_unsupported, no_completion, settle, transfer_poll, transfer_result, Cancelled,
    CompletionEntry, CompletionIoResult, Op, Opcode, Reply, Request, Settled, SystemCall,
    WindowsCall,
};
use crate::poll::Poll;

verus! {

pub open spec fn windows_write_offset(offset: u64) -> Result<(), IoError> {
    if offset == u64::MAX {
        Err(invalid_input("positional offset is the Windows append sentinel"))
    } else {
        Ok(())
    }
}

/// Windows takes an offset of all-one bits for an append. A positional write must
/// not silently select that separate behavior.
pub fn validate_windows_write_offset(offset: u64) -> (r: Result<(), IoError>)
    ensures
        r == windows_write_offset(offset),
{
    if offset == u64::MAX {
        return Err(
            IoError::Message(
                ErrorKind::InvalidInput,
                "positional offset is the Windows append sentinel",
            ),
        );
    }
    Ok(())
}

/// A write at an offset, which leaves the cursor of the file alone.
pub struct WriteAtOp<'a, B> {
    pub handle: &'a InnerRawHandle,
    pub buf: CompletionBuffer<B>,
    pub offset: u64,
    pub completion_token: Option<usize>,
}

impl<'a, B: IoBuf> WriteAtOp<'a, B> {
    pub fn new(handle: &'a InnerRawHandle, buf: B, offset: u64) -> (r: Self)
        ensures
            r.handle == handle,
            r.buf.value() == buf,
            r.buf is Boxed <==> handle.completion,
            r.offset == offset,
            r.completion_token is None,
    {
        WriteAtOp {
            handle,
            buf: CompletionBuffer::new(buf, handle.uses_completion()),
            offset,
            completion_token: None,
        }
    }

    /// Reclaim the buffer of an operation that is not with its driver.
    pub fn take_bufs(self) -> (r: B)
        requires
            self.completion_token is None,
        ensures
            r == self.buf.value(),
    {
        self.buf.into_inner()
    }

    /// Give the operation up. One that is with its driver leaves its buffer there.
    pub fn cancel(self) -> (r: Option<Cancelled<Box<B>>>)
        ensures
            r == match self.completion_token {
                Some(token) => Some(
                    Cancelled {
                        driver: self.handle.driver,
                        token,
                        storage: Box::new(self.buf.value()),
                    },
                ),
                None => None,
            },
    {
        match self.completion_token {
            Some(token) => Some(
                Cancelled {
                    driver: self.handle.driver,
                    token,
                    storage: self.buf.into_stable_box(),
                },
            ),
            None => None,
        }
    }
}

impl<'a, B: IoBuf> Op for WriteAtOp<'a, B> {
    type Output = usize;

    open spec fn token(&self) -> Option<usize> {
        self.completion_token
    }

    open spec fn admits(&self, result: i32) -> bool {
        true
    }

    fn completion_token(&self) -> (r: Option<usize>) {
        self.completion_token
    }

    fn poll_completion(&mut self, reply: Reply) -> (r: Poll<Result<usize, IoError>>)
        ensures
            r == transfer_poll(old(self).handle.system(), reply),
            final(self).completion_token == reply.token_after(old(self).completion_token),
            final(self).handle == old(self).handle,
            final(self).buf == old(self).buf,
            final(self).offset == old(self).offset,
    {
        match settle(&mut self.completion_token, reply) {
            Settled::Pending => Poll::Pending,
            Settled::Refused(error) => Poll::Ready(Err(error)),
            Settled::Result(result) => Poll::Ready(transfer_result(self.handle.system(), result)),
        }
    }

    fn build_completion_entry(&mut self, user_data: u64) -> (r: Result<CompletionEntry, IoError>)
        ensures
            r == match (
                old(self).handle.handle,
                transfer_len_spec(
                    old(self).buf.value().filled(),
                    "write buffer is too large for io_uring",
                ),
                positional_offset_spec(old(self).offset),
            ) {
                (RawOsHandle::Fd(fd), Ok(len), Ok(offset)) => Ok::<CompletionEntry, IoError>(
                    CompletionEntry { fd, opcode: Opcode::Write { len, offset }, user_data },
                ),
                (RawOsHandle::Fd(_), Err(error), _) => Err(error),
                (RawOsHandle::Fd(_), _, Err(error)) => Err(error),
                _ => Err(no_completion()),
            },
            *final(self) == *old(self),
    {
        let fd: i32 = match self.handle.handle {
            RawOsHandle::Fd(fd) => fd,
            _ => {
                return Err(completion_unsupported());
            },
        };
        let filled: usize = self.buf.as_ref().buf_len();
        let len: u32 = match transfer_len(filled, "write buffer is too large for io_uring") {
            Ok(len) => len,
            Err(error) => {
                return Err(error);
            },
        };
        match positional_offset(self.offset) {
            Ok(offset) => Ok(
                CompletionEntry { fd, opcode: Opcode::Write { len, offset }, user_data },
            ),
            Err(error) => Err(error),
        }
    }

    fn submit_windows(&mut self) -> (r: Result<WindowsCall, IoError>)
        ensures
            r == match (old(self).handle.handle, windows_write_offset(old(self).offset)) {
                (RawOsHandle::Fd(_), _) => Err::<WindowsCall, IoError>(no_completion()),
                (_, Err(error)) => Err(error),
                (RawOsHandle::Socket(_), Ok(_)) => Err(
                    invalid_input("WriteAtOp expects a file handle, not a socket"),
                ),
                (RawOsHandle::Handle(handle), Ok(_)) => match transfer_len_spec(
                    old(self).buf.value().filled(),
                    "write buffer is too large for Windows file I/O",
                ) {
                    Ok(len) => Ok(
                        WindowsCall::WriteFileAt {
                            handle,
                            len,
                            offset_low: (old(self).offset % 0x1_0000_0000) as u32,
                            offset_high: (old(self).offset / 0x1_0000_0000) as u32,
                        },
                    ),
                    Err(error) => Err(error),
                },
            },
            *final(self) == *old(self),
    {
        if let RawOsHandle::Fd(_) = self.handle.handle {
            return Err(completion_unsupported());
        }
        match validate_windows_write_offset(self.offset) {
            Ok(_) => {},
            Err(error) => {
                return Err(error);
            },
        }
        let handle: u64 = match self.handle.handle {
            RawOsHandle::Handle(handle) => handle,
            _ => {
                return Err(
                    IoError::Message(
                        ErrorKind::InvalidInput,
                        "WriteAtOp expects a file handle, not a socket",
                    ),
                );
            },
        };
        let filled: usize = self.buf.as_ref().buf_len();
        match transfer_len(filled, "write buffer is too large for Windows file I/O") {
            Ok(len) => Ok(
                WindowsCall::WriteFileAt {
                    handle,
                    len,
                    offset_low: (self.offset % 0x1_0000_0000) as u32,
                    offset_high: (self.offset / 0x1_0000_0000) as u32,
                },
            ),
            Err(error) => Err(error),
        }
    }
}

/// A write at an offset asks for that very offset, and offers every byte of its
/// buffer; it is submitted wherever a signed length and a signed offset can hold the
/// two.
pub proof fn writes_ask_for_their_own_offset<'a, B: IoBuf>(
    before: WriteAtOp<'a, B>,
    after: WriteAtOp<'a, B>,
    user_data: u64,
    r: Result<CompletionEntry, IoError>,
)
    requires
        exists|op: &mut WriteAtOp<'a, B>|
            *op == before && *final(op) == after && #[trigger] call_ensures(
                <WriteAtOp<'a, B> as Op>::build_completion_entry,
                (op, user_data),
                r,
            ),
    ensures
        r matches Ok(entry) ==> {
            &&& before.handle.handle == RawOsHandle::Fd(entry.fd)
            &&& entry.user_data == user_data
            &&& entry.opcode matches Opcode::Write { len, offset } && offset == before.offset && len
                == before.buf.value().filled()
        },
        r is Ok <==> before.handle.handle is Fd && before.buf.value().filled() < 0x8000_0000
            && before.offset
            < 0x8000_0000_0000_0000,
        after == before,
{
}

/// A completed write reports the bytes that went; buffer and offset stay.
pub proof fn completed_positional_writes_count_what_went<'a, B: IoBuf>(
    before: WriteAtOp<'a, B>,
    after: WriteAtOp<'a, B>,
    reply: Reply,
    r: Poll<Result<usize, IoError>>,
    result: i32,
    token: usize,
    error: IoError,
)
    requires
        exists|op: &mut WriteAtOp<'a, B>|
            *op == before && *final(op) == after && #[trigger] call_ensures(
                <WriteAtOp<'a, B> as Op>::poll_completion,
                (op, reply),
                r,
            ),
    ensures
        (reply == Reply::Submitted(CompletionIoResult::Completed(result)) || reply
            == Reply::Collected(
            Some(result),
        )) ==> after.completion_token is None && (result >= 0 ==> (r matches
            Poll::Ready(Ok(count)) && count == result)) && (result < 0
                ==> (r matches Poll::Ready(Err(_)))),
        (reply == Reply::Submitted(CompletionIoResult::Completed(result)) || reply
            == Reply::Collected(
            Some(result),
        )) && i32::MIN < result < 0 ==> (r matches Poll::Ready(
            Err(IoError::Os(own, code)),
        ) && own == before.handle.system() && code == -result),
        reply == Reply::Submitted(CompletionIoResult::Retry(token)) ==> r is Pending
            && after.completion_token == Some(token),
        reply == Reply::Submitted(CompletionIoResult::SubmitErr(error))
            ==> after.completion_token is None
            && r == Poll::Ready(Err::<usize, IoError>(error)),
        reply == Reply::Collected(None) ==> r is Pending && after.completion_token
            == before.completion_token,
        after.buf == before.buf,
        after.handle == before.handle,
        after.offset == before.offset,
{
}

/// On Windows the two halves of the offset make up the very offset of the write.
/// The offset that Windows takes for an append is refused.
pub proof fn windows_writes_ask_for_their_own_offset<'a, B: IoBuf>(
    before: WriteAtOp<'a, B>,
    after: WriteAtOp<'a, B>,
    r: Result<WindowsCall, IoError>,
)
    requires
        exists|op: &mut WriteAtOp<'a, B>|
            *op == before && *final(op) == after && #[trigger] call_ensures(
                <WriteAtOp<'a, B> as Op>::submit_windows,
                (op,),
                r,
            ),
    ensures
        r matches Ok(call) ==> (call matches WindowsCall::WriteFileAt {
            handle,
            len,
            offset_low,
            offset_high,
        } && before.handle.handle == RawOsHandle::Handle(handle) && len
            == before.buf.value().filled() && offset_low + offset_high * 0x1_0000_0000
            == before.offset),
        r is Ok <==> before.handle.handle is Handle && before.buf.value().filled() < 0x8000_0000
            && before.offset < 0xffff_ffff_ffff_ffff,
        after == before,
{
}

/// Only the offset of all-one bits is refused.
pub proof fn only_the_append_sentinel_is_refused(
    offset: u64,
    r: Result<(), IoError>,
)
    requires
        call_ensures(validate_windows_write_offset, (offset,), r),
    ensures
        r is Ok <==> offset < 0xffff_ffff_ffff_ffff,
        r matches Err(error) ==> (error matches IoError::Message(kind, _) && kind is InvalidInput),
{
}

/// A write that is with its driver leaves its buffer there, under its token.
pub proof fn cancelled_positional_writes_leave_their_buffer<'a, B: IoBuf>(
    op: WriteAtOp<'a, B>,
    r: Option<Cancelled<Box<B>>>,
)
    requires
        call_ensures(WriteAtOp::<'a, B>::cancel, (op,), r),
    ensures
        r is Some <==> op.completion_token is Some,
        r matches Some(left) ==> op.completion_token == Some(left.token) && left.driver
            == op.handle.driver && *left.storage == op.buf.value(),
{
}

/// A write is made for the handle, the buffer and the offset it is given.
pub proof fn positional_writes_keep_their_offset<'a, B: IoBuf>(
    handle: &'a InnerRawHandle,
    buf: B,
    offset: u64,
    op: WriteAtOp<'a, B>,
)
    requires
        call_ensures(WriteAtOp::<'a, B>::new, (handle, buf, offset), op),
    ensures
        op.offset == offset && op.handle == handle && op.buf.value() == buf && op.completion_token
            is None,
{
}

/// A positional write is made for the handle it is given, with the driver not asked yet, and gives its buffer
/// back unchanged.
pub proof fn positional_writes_are_made_for_their_handle<'a, B: IoBuf>(
    handle: &'a InnerRawHandle,
    buf: B,
    offset: u64,
    made: WriteAtOp<'a, B>,
    back: B,
)
    requires
        call_ensures(WriteAtOp::<'a, B>::new, (handle, buf, offset), made),
        call_ensures(WriteAtOp::<'a, B>::take_bufs, (made,), back),
    ensures
        made.handle == handle && made.completion_token is None,
        made.buf.value() == buf && (made.buf is Boxed <==> handle.completion),
        made.offset == offset,
        back == buf,
{
}

/// A positional write asks for the result under its token exactly while it has one.
pub proof fn positional_writes_ask_under_their_token<'a, B: IoBuf>(
    op: WriteAtOp<'a, B>,
    token: Option<usize>,
    request: Request,
)
    requires
        call_ensures(<WriteAtOp<'a, B> as Op>::completion_token, (&op,), token),
        call_ensures(<WriteAtOp<'a, B> as Op>::request, (&op,), request),
    ensures
        token == op.completion_token && op.token() == op.completion_token,
        request is Submit <==> op.completion_token is None,
        request matches Request::Collect(own) ==> op.completion_token == Some(own),
{
}

} // verus!
