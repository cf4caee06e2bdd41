//! Writing from several segments at once.

use vstd::prelude::*;

use crate::error::{ErrorKind, IoError};
use crate::handle::{InnerRawHandle, RawOsHandle};
use crate::io::{flat, gather, lengths_of, segment_lengths, IoVectoredBuf};
use crate::op::io_util::{
    check_socket_vectors, checked_total, completion_vectored_len, completion_vectored_len_spec,
    invalid_input, iovec_count, socket_vectors_fit, total_len, transfer_len,
};
use crate::op::{
    completion_unsupported, no_completion, overlapped_spec, overlapped_started, settle,
    transfer_poll, transfer_result, Cancelled, CompletionEntry, CompletionIoResult, Op, Opcode,
    Reply, Request, Settled, SystemCall, WindowsCall,
};
use crate::poll::{attempt_spec, poll_result_or_wait, Attempt, Interest, Poll};

verus! {

/// A vectored write. A file on Windows has no vectored call: there the operation
/// goes through `completion_staging`, one allocation for all segments.
pub struct WritevOp<'a, B> {
    pub handle: &'a InnerRawHandle,
    pub bufs: B,
    pub completion_token: Option<usize>,
    pub completion_staging: Option<Vec<u8>>,
    /// The lengths in the array of vectors that the kernel was given, which must
    /// be kept until the completion.
    pub completion_system_iovecs: Option<Vec<usize>>,
}

/// The array of vectors of the operation, and the storage behind it.
pub struct WritevStorage<B> {
    pub iovecs: Option<Vec<usize>>,
    pub staging: Option<Vec<u8>>,
    pub bufs: B,
}

impl<'a, B: IoVectoredBuf> WritevOp<'a, B> {
    pub fn new(handle: &'a InnerRawHandle, bufs: B) -> (r: Self)
        ensures
            r.handle == handle,
            r.bufs == bufs,
            r.completion_token is None,
            r.completion_staging is None,
            r.completion_system_iovecs is None,
    {
        WritevOp {
            handle,
            bufs,
            completion_token: None,
            completion_staging: None,
            completion_system_iovecs: None,
        }
    }

    /// Reclaim the buffer of an operation that is not with its driver.
    pub fn take_bufs(self) -> (r: B)
        requires
            self.completion_token is None,
        ensures
            r == self.bufs,
    {
        self.bufs
    }

    /// Give the operation up. One that is with its driver leaves all storage that
    /// the kernel can see there.
    pub fn cancel(self) -> (r: Option<Cancelled<WritevStorage<B>>>)
        ensures
            r == match self.completion_token {
                Some(token) => Some(
                    Cancelled {
                        driver: self.handle.driver,
                        token,
                        storage: WritevStorage {
                            iovecs: self.completion_system_iovecs,
                            staging: self.completion_staging,
                            bufs: self.bufs,
                        },
                    },
                ),
                None => None,
            },
    {
        match self.completion_token {
            Some(token) => Some(
                Cancelled {
                    driver: self.handle.driver,
                    token,
                    storage: WritevStorage {
                        iovecs: self.completion_system_iovecs,
                        staging: self.completion_staging,
                        bufs: self.bufs,
                    },
                },
            ),
            None => None,
        }
    }

    /// Take in the result of the call: a count, or a reason to wait or to fail.
    pub fn poll_poll(&mut self, result: Result<usize, IoError>) -> (r: Attempt<usize>)
        ensures
            r == attempt_spec(result, Interest::Writable),
            *final(self) == *old(self),
    {
        poll_result_or_wait(result, Interest::Writable)
    }

    /// Take in how the overlapped call was started. `error` is the code of a call
    /// that did not succeed at once. Only a file that is written keeps the staging.
    pub fn windows_started(&mut self, error: Option<i32>) -> (r: Result<(), IoError>)
        ensures
            r == overlapped_spec(error),
            final(self).completion_staging == if r is Ok && old(
                self,
            ).handle.handle is Handle {
                old(self).completion_staging
            } else {
                None
            },
            final(self).handle == old(self).handle,
            final(self).bufs == old(self).bufs,
            final(self).completion_token == old(self).completion_token,
            final(self).completion_system_iovecs == old(self).completion_system_iovecs,
    {
        let started = overlapped_started(error);
        let keep: bool = match self.handle.handle {
            RawOsHandle::Handle(_) => started.is_ok(),
            _ => false,
        };
        if !keep {
            self.completion_staging = None;
        }
        started
    }
}

impl<'a, B: IoVectoredBuf> Op for WritevOp<'a, B> {
    type Output = usize;

    open spec fn token(&self) -> Option<usize> {
        self.completion_token
    }

    open spec fn admits(&self, result: i32) -> bool {
        true
    }

    fn completion_token(&self) -> (r: Option<usize>) {
        self.completion_token
    }

    fn poll_call(&self) -> (r: Result<SystemCall, IoError>)
        ensures
            match self.handle.handle {
                RawOsHandle::Fd(fd) => if self.bufs.segments().len() <= i32::MAX {
                    r == Ok::<SystemCall, IoError>(
                        SystemCall::Writev { fd, count: self.bufs.segments().len() as i32 },
                    )
                } else {
                    r == Err::<SystemCall, IoError>(
                        invalid_input("too many I/O vectors for native count field"),
                    )
                },
                RawOsHandle::Socket(socket) => {
                    let lengths = lengths_of(self.bufs.segments());
                    if !socket_vectors_fit(lengths) {
                        r == Err::<SystemCall, IoError>(
                            invalid_input("writev buffer is too large for Windows socket I/O"),
                        )
                    } else if lengths.len() > u32::MAX {
                        r == Err::<SystemCall, IoError>(
                            invalid_input("too many I/O vectors for native count field"),
                        )
                    } else {
                        r == Ok::<SystemCall, IoError>(
                            SystemCall::WsaSendVectored { socket, count: lengths.len() as u32 },
                        )
                    }
                },
                RawOsHandle::Handle(_) => r == Err::<SystemCall, IoError>(
                    IoError::Message(
                        ErrorKind::Unsupported,
                        "poll-based writev currently supports sockets only on Windows",
                    ),
                ),
            },
    {
        match self.handle.handle {
            RawOsHandle::Fd(fd) => match iovec_count::<i32>(self.bufs.segment_count()) {
                Ok(count) => Ok(SystemCall::Writev { fd, count }),
                Err(error) => Err(error),
            },
            RawOsHandle::Socket(socket) => {
                let lengths = segment_lengths(&self.bufs);
                match check_socket_vectors(
                    lengths.as_slice(),
                    "writev buffer is too large for Windows socket I/O",
                ) {
                    Ok(count) => Ok(SystemCall::WsaSendVectored { socket, count }),
                    Err(error) => Err(error),
                }
            },
            RawOsHandle::Handle(_) => Err(
                IoError::Message(
                    ErrorKind::Unsupported,
                    "poll-based writev currently supports sockets only on Windows",
                ),
            ),
        }
    }

    fn poll_completion(&mut self, reply: Reply) -> (r: Poll<Result<usize, IoError>>)
        ensures
            r == transfer_poll(old(self).handle.system(), reply),
            final(self).completion_staging == if reply.settled() is Result {
                None
            } else {
                old(self).completion_staging
            },
            final(self).completion_token == reply.token_after(old(self).completion_token),
            final(self).handle == old(self).handle,
            final(self).bufs == old(self).bufs,
            final(self).completion_system_iovecs == old(self).completion_system_iovecs,
    {
        match settle(&mut self.completion_token, reply) {
            Settled::Pending => Poll::Pending,
            Settled::Refused(error) => Poll::Ready(Err(error)),
            Settled::Result(result) => {
                self.completion_staging = None;
                Poll::Ready(transfer_result(self.handle.system(), result))
            },
        }
    }

    fn build_completion_entry(&mut self, user_data: u64) -> (r: Result<CompletionEntry, IoError>)
        ensures
            match old(self).handle.handle {
                RawOsHandle::Fd(fd) => {
                    let lengths = match old(self).completion_system_iovecs {
                        Some(iovecs) => iovecs@,
                        None => lengths_of(old(self).bufs.segments()),
                    };
                    if lengths.len() <= u32::MAX {
                        &&& r == Ok::<CompletionEntry, IoError>(
                            CompletionEntry {
                                fd,
                                opcode: Opcode::Writev { count: lengths.len() as u32 },
                                user_data,
                            },
                        )
                        &&& final(self).completion_system_iovecs matches Some(iovecs) && iovecs@
                            == lengths
                    } else {
                        &&& r == Err::<CompletionEntry, IoError>(
                            invalid_input("too many I/O vectors for native count field"),
                        )
                        &&& final(self).completion_system_iovecs is None
                    }
                },
                _ => {
                    &&& r == Err::<CompletionEntry, IoError>(no_completion())
                    &&& final(self).completion_system_iovecs == old(self).completion_system_iovecs
                },
            },
            final(self).handle == old(self).handle,
            final(self).bufs == old(self).bufs,
            final(self).completion_token == old(self).completion_token,
            final(self).completion_staging == old(self).completion_staging,
    {
        let fd: i32 = match self.handle.handle {
            RawOsHandle::Fd(fd) => fd,
            _ => {
                return Err(completion_unsupported());
            },
        };
        let iovecs: Vec<usize> = match self.completion_system_iovecs.take() {
            Some(iovecs) => iovecs,
            None => segment_lengths(&self.bufs),
        };
        match iovec_count::<u32>(iovecs.len()) {
            Ok(count) => {
                // The array needs to be kept alive until the completion is ready.
                self.completion_system_iovecs = Some(iovecs);
                Ok(CompletionEntry { fd, opcode: Opcode::Writev { count }, user_data })
            },
            Err(error) => Err(error),
        }
    }

    fn submit_windows(&mut self) -> (r: Result<WindowsCall, IoError>)
        ensures
            match old(self).handle.handle {
                RawOsHandle::Socket(socket) => {
                    let lengths = lengths_of(old(self).bufs.segments());
                    &&& r == match completion_vectored_len_spec(lengths) {
                        Ok(_) => if lengths.len() <= u32::MAX {
                            Ok::<WindowsCall, IoError>(
                                WindowsCall::WsaSendVectored { socket, count: lengths.len() as u32 },
                            )
                        } else {
                            Err(invalid_input("too many I/O vectors for native count field"))
                        },
                        Err(error) => Err(error),
                    }
                    &&& final(self).completion_staging == old(self).completion_staging
                },
                RawOsHandle::Handle(handle) => {
                    let total = total_len(lengths_of(old(self).bufs.segments()));
                    if total > usize::MAX {
                        &&& r == Err::<WindowsCall, IoError>(
                            invalid_input("writev buffer length overflow"),
                        )
                        &&& final(self).completion_staging == old(self).completion_staging
                    } else if total > i32::MAX {
                        &&& r == Err::<WindowsCall, IoError>(
                            invalid_input("writev total length is too large for Windows file I/O"),
                        )
                        &&& final(self).completion_staging == old(self).completion_staging
                    } else {
                        &&& r == Ok::<WindowsCall, IoError>(
                            WindowsCall::WriteFile { handle, len: total as u32 },
                        )
                        &&& final(self).completion_staging matches Some(staging) && {
                            &&& staging@.len() == total_len(lengths_of(old(self).bufs.segments()))
                            &&& staging@ == flat(old(self).bufs.segments())
                        }
                    }
                },
                RawOsHandle::Fd(_) => {
                    &&& r == Err::<WindowsCall, IoError>(no_completion())
                    &&& final(self).completion_staging == old(self).completion_staging
                },
            },
            final(self).handle == old(self).handle,
            final(self).bufs == old(self).bufs,
            final(self).completion_token == old(self).completion_token,
            final(self).completion_system_iovecs == old(self).completion_system_iovecs,
    {
        match self.handle.handle {
            RawOsHandle::Socket(socket) => {
                let lengths = segment_lengths(&self.bufs);
                match completion_vectored_len(lengths.as_slice()) {
                    Ok(_) => {},
                    Err(error) => {
                        return Err(error);
                    },
                }
                proof {
                    assert forall|i: int| 0 <= i < lengths@.len() implies #[trigger] lengths@[i]
                        <= i32::MAX by {
                        crate::op::io_util::lemma_part_is_no_longer(lengths@, i);
                    }
                }
                match check_socket_vectors(
                    lengths.as_slice(),
                    "writev buffer is too large for Windows socket I/O",
                ) {
                    Ok(count) => Ok(WindowsCall::WsaSendVectored { socket, count }),
                    Err(error) => Err(error),
                }
            },
            RawOsHandle::Handle(handle) => {
                let lengths = segment_lengths(&self.bufs);
                let total: usize = match checked_total(lengths.as_slice()) {
                    Some(total) => total,
                    None => {
                        return Err(
                            IoError::Message(
                                ErrorKind::InvalidInput,
                                "writev buffer length overflow",
                            ),
                        );
                    },
                };
                match transfer_len(
                    total,
                    "writev total length is too large for Windows file I/O",
                ) {
                    Ok(len) => {
                        let staging: Vec<u8> = gather(&self.bufs);
                        proof {
                            crate::io::lemma_flat_len(self.bufs.segments());
                        }
                        self.completion_staging = Some(staging);
                        Ok(WindowsCall::WriteFile { handle, len })
                    },
                    Err(error) => Err(error),
                }
            },
            RawOsHandle::Fd(_) => Err(completion_unsupported()),
        }
    }
}

/// A completed write reports the bytes that went and lets go of the staging; the
/// segments stay as they were.
pub proof fn completed_vectored_writes_count_what_went<'a, B: IoVectoredBuf>(
    before: WritevOp<'a, B>,
    after: WritevOp<'a, B>,
    reply: Reply,
    r: Poll<Result<usize, IoError>>,
    result: i32,
    token: usize,
    error: IoError,
)
    requires
        exists|op: &mut WritevOp<'a, B>|
            *op == before && *final(op) == after && #[trigger] call_ensures(
                <WritevOp<'a, B> as Op>::poll_completion,
                (op, reply),
                r,
            ),
    ensures
        (reply == Reply::Submitted(CompletionIoResult::Completed(result)) || reply
            == Reply::Collected(
            Some(result),
        )) ==> after.completion_token is None && (result >= 0 ==> (r matches
            Poll::Ready(Ok(count)) && count == result)) && (result < 0
                ==> (r matches Poll::Ready(Err(_)))),
        (reply == Reply::Submitted(CompletionIoResult::Completed(result)) || reply
            == Reply::Collected(
            Some(result),
        )) && i32::MIN < result < 0 ==> (r matches Poll::Ready(
            Err(IoError::Os(own, code)),
        ) && own == before.handle.system() && code == -result),
        reply == Reply::Submitted(CompletionIoResult::Retry(token)) ==> r is Pending
            && after.completion_token == Some(token),
        reply == Reply::Submitted(CompletionIoResult::SubmitErr(error))
            ==> after.completion_token is None
            && r == Poll::Ready(Err::<usize, IoError>(error)),
        reply == Reply::Collected(None) ==> r is Pending && after.completion_token
            == before.completion_token,
        after.handle == before.handle && after.completion_system_iovecs
            == before.completion_system_iovecs,
        after.bufs == before.bufs,
        r is Pending ==> after.completion_staging == before.completion_staging,
        (reply == Reply::Submitted(CompletionIoResult::Completed(result)) || reply
            == Reply::Collected(
            Some(result),
        )) ==> after.completion_staging is None,
{
}

/// A vectored write names as many vectors as its buffer has segments, each as long
/// as its segment, and keeps that array for as long as the kernel may read it.
pub proof fn vectored_writes_name_every_segment<'a, B: IoVectoredBuf>(
    before: WritevOp<'a, B>,
    after: WritevOp<'a, B>,
    user_data: u64,
    r: Result<CompletionEntry, IoError>,
    index: int,
)
    requires
        exists|op: &mut WritevOp<'a, B>|
            *op == before && *final(op) == after && #[trigger] call_ensures(
                <WritevOp<'a, B> as Op>::build_completion_entry,
                (op, user_data),
                r,
            ),
        before.completion_system_iovecs is None,
    ensures
        r matches Ok(entry) ==> {
            &&& before.handle.handle == RawOsHandle::Fd(entry.fd)
            &&& entry.user_data == user_data
            &&& entry.opcode matches Opcode::Writev { count } && count
                == before.bufs.segments().len()
            &&& after.completion_system_iovecs matches Some(lengths) && {
                &&& lengths@.len() == before.bufs.segments().len()
                &&& 0 <= index < lengths@.len() && before.bufs.segments()[index].len()
                    <= usize::MAX ==> lengths@[index] == before.bufs.segments()[index].len()
            }
        },
        r is Ok <==> before.handle.handle is Fd && before.bufs.segments().len() < 0x1_0000_0000,
        after.bufs == before.bufs && after.handle == before.handle && after.completion_token
            == before.completion_token && after.completion_staging == before.completion_staging,
{
}

/// The array of vectors that the kernel was given is named again as it is.
pub proof fn vectored_writes_keep_their_array<'a, B: IoVectoredBuf>(
    before: WritevOp<'a, B>,
    after: WritevOp<'a, B>,
    user_data: u64,
    r: Result<CompletionEntry, IoError>,
    kept: Vec<usize>,
)
    requires
        exists|op: &mut WritevOp<'a, B>|
            *op == before && *final(op) == after && #[trigger] call_ensures(
                <WritevOp<'a, B> as Op>::build_completion_entry,
                (op, user_data),
                r,
            ),
        before.completion_system_iovecs == Some(kept),
        before.handle.handle is Fd,
        kept@.len() < 0x1_0000_0000,
    ensures
        r matches Ok(entry) && (entry.opcode matches Opcode::Writev { count } && count
            == kept@.len()),
        after.completion_system_iovecs matches Some(lengths) && lengths@ == kept@,
{
}

/// On Windows a socket takes every segment as a vector. A file is written from one
/// allocation that holds every byte of every segment, in order.
pub proof fn windows_vectored_writes_cover_every_segment<'a, B: IoVectoredBuf>(
    before: WritevOp<'a, B>,
    after: WritevOp<'a, B>,
    r: Result<WindowsCall, IoError>,
)
    requires
        exists|op: &mut WritevOp<'a, B>|
            *op == before && *final(op) == after && #[trigger] call_ensures(
                <WritevOp<'a, B> as Op>::submit_windows,
                (op,),
                r,
            ),
    ensures
        before.handle.handle matches RawOsHandle::Socket(socket) ==> if total_len(
            lengths_of(before.bufs.segments()),
        ) < 0x8000_0000 && before.bufs.segments().len() < 0x1_0000_0000 {
            r matches Ok(WindowsCall::WsaSendVectored { socket: own, count }) && own == socket
                && count
                == before.bufs.segments().len()
        } else {
            r is Err
        },
        before.handle.handle matches RawOsHandle::Handle(handle) ==> if total_len(
            lengths_of(before.bufs.segments()),
        ) < 0x8000_0000 {
            &&& r matches Ok(WindowsCall::WriteFile { handle: own, len }) && own == handle && len
                == total_len(lengths_of(before.bufs.segments()))
            &&& (after.completion_staging matches Some(staging) && staging@.len()
                == total_len(lengths_of(before.bufs.segments())) && staging@ == flat(
                before.bufs.segments(),
            ))
        } else {
            r is Err
        },
        before.handle.handle is Fd ==> r is Err,
        !(before.handle.handle is Handle) || r is Err ==> after.completion_staging
            == before.completion_staging,
        after.bufs == before.bufs && after.handle == before.handle && after.completion_token
            == before.completion_token,
{
    let lengths = lengths_of(before.bufs.segments());
    crate::op::io_util::lemma_prefix_is_no_longer(lengths, lengths.len() as int);
}

/// A polled write names as many vectors as its buffer has segments.
pub proof fn polled_vectored_writes_name_every_segment<'a, B: IoVectoredBuf>(
    op: WritevOp<'a, B>,
    r: Result<SystemCall, IoError>,
)
    requires
        call_ensures(<WritevOp<'a, B> as Op>::poll_call, (&op,), r),
    ensures
        op.handle.handle matches RawOsHandle::Fd(fd) ==> if op.bufs.segments().len() < 0x8000_0000 {
            r matches Ok(SystemCall::Writev { fd: own, count }) && own == fd && count
                == op.bufs.segments().len()
        } else {
            r is Err
        },
        op.handle.handle matches RawOsHandle::Socket(socket) ==> (r matches Ok(call)
            ==> (call matches
            SystemCall::WsaSendVectored { socket: own, count } && own == socket && count
            == op.bufs.segments().len())),
        op.handle.handle is Socket ==> (r is Ok <==> op.bufs.segments().len() < 0x1_0000_0000 && (
        forall|i: int|
            0 <= i < lengths_of(op.bufs.segments()).len() ==> #[trigger] lengths_of(
                op.bufs.segments(),
            )[i] < 0x8000_0000)),
        op.handle.handle is Handle ==> r is Err,
{
}

/// A polled write reports what its call gave; it waits only where the call would
/// have had to.
pub proof fn polled_vectored_writes_report_what_moved<'a, B: IoVectoredBuf>(
    before: WritevOp<'a, B>,
    after: WritevOp<'a, B>,
    result: Result<usize, IoError>,
    r: Attempt<usize>,
)
    requires
        exists|op: &mut WritevOp<'a, B>|
            *op == before && *final(op) == after && #[trigger] call_ensures(
                WritevOp::<'a, B>::poll_poll,
                (op, result),
                r,
            ),
    ensures
        r matches Attempt::Done(own) ==> own == result,
        r matches Attempt::AwaitReadiness(awaited) ==> awaited is Writable,
        r is AwaitReadiness <==> (result matches Err(error) && error.would_block()),
        after == before,
{
}

/// A write that is with its driver leaves all storage that the kernel can see there.
pub proof fn cancelled_vectored_writes_leave_their_storage<'a, B: IoVectoredBuf>(
    op: WritevOp<'a, B>,
    r: Option<Cancelled<WritevStorage<B>>>,
)
    requires
        call_ensures(WritevOp::<'a, B>::cancel, (op,), r),
    ensures
        r is Some <==> op.completion_token is Some,
        r matches Some(left) ==> op.completion_token == Some(left.token) && left.driver
            == op.handle.driver && left.storage.bufs == op.bufs && left.storage.iovecs
            == op.completion_system_iovecs && left.storage.staging == op.completion_staging,
{
}

/// Only a file keeps its staging once the call was started.
pub proof fn only_files_keep_the_staging_of_a_write<'a, B: IoVectoredBuf>(
    before: WritevOp<'a, B>,
    after: WritevOp<'a, B>,
    error: Option<i32>,
    r: Result<(), IoError>,
)
    requires
        exists|op: &mut WritevOp<'a, B>|
            *op == before && *final(op) == after && #[trigger] call_ensures(
                WritevOp::<'a, B>::windows_started,
                (op, error),
                r,
            ),
    ensures
        r is Ok <==> error is None || error == Some(997i32),
        after.completion_staging == if r is Ok && before.handle.handle is Handle {
            before.completion_staging
        } else {
            None
        },
        after.bufs == before.bufs && after.handle == before.handle && after.completion_token
            == before.completion_token,
{
}

/// A vectored write is made for the handle it is given, with the driver not asked yet, and gives its buffer
/// back unchanged.
pub proof fn vectored_writes_are_made_for_their_handle<'a, B: IoVectoredBuf>(
    handle: &'a InnerRawHandle,
    buf: B,
    made: WritevOp<'a, B>,
    back: B,
)
    requires
        call_ensures(WritevOp::<'a, B>::new, (handle, buf), made),
        call_ensures(WritevOp::<'a, B>::take_bufs, (made,), back),
    ensures
        made.handle == handle && made.completion_token is None,
        made.bufs == buf && made.completion_staging is None
            && made.completion_system_iovecs is None,
        back == buf,
{
}

/// A vectored write asks for the result under its token exactly while it has one.
pub proof fn vectored_writes_ask_under_their_token<'a, B: IoVectoredBuf>(
    op: WritevOp<'a, B>,
    token: Option<usize>,
    request: Request,
)
    requires
        call_ensures(<WritevOp<'a, B> as Op>::completion_token, (&op,), token),
        call_ensures(<WritevOp<'a, B> as Op>::request, (&op,), request),
    ensures
        token == op.completion_token && op.token() == op.completion_token,
        request is Submit <==> op.completion_token is None,
        request matches Request::Collect(own) ==> op.completion_token == Some(own),
{
}

} // verus!
