//! Receiving datagrams with their source.

use vstd::prelude::*;

use crate::error::{ErrorKind, IoError};
use crate::handle::{InnerRawHandle, RawOsHandle};
use crate::io::IoBufMut;
use crate::op::io_util::{invalid_input, transfer_len, transfer_len_spec, CompletionBuffer};
use crate::op::recv::{peek_flags, receive_flags};
use crate::op::socket_addr::{
    decodes, sockaddr_storage_to_socketaddr, AddressFormat, SocketAddr, STORAGE_LEN,
};
use crate::op::{
    completion_unsupported, no_completion, overlapped_spec, overlapped_started, settle, Cancelled,
    CompletionEntry, CompletionIoResult, Op, Opcode, Reply, Request, Settled, SystemCall,
    WindowsCall,
};
use crate::poll::{poll_result_or_wait, Attempt, Interest, Poll};
use crate::system::System;

verus! {

/// The header that a message is sent or received with, and the address that it
/// points at. The kernel reads and writes it until the operation completes.
#[derive(Debug, Clone, Copy, PartialEq, Eq)]
pub struct MessageState {
    pub address: [u8; 128],
    pub address_len: usize,
    /// Length of the one vector that the header points at.
    pub transfer_len: usize,
    pub vectors: usize,
    pub control_len: usize,
    pub flags: i32,
}

/// A receive of one datagram with its source. A peek leaves the datagram queued.
pub struct RecvfromOp<'a, B> {
    pub handle: &'a InnerRawHandle,
    pub buf: CompletionBuffer<B>,
    pub completion_token: Option<usize>,
    pub completion_state: Option<Box<MessageState>>,
    pub peek: bool,
}

/// `r` is the datagram of `read` bytes whose source is in `storage`, or the error
/// of a source that cannot be told.
pub open spec fn datagram(
    format: AddressFormat,
    read: usize,
    storage: Seq<u8>,
    length: usize,
    r: Result<(usize, SocketAddr), IoError>,
) -> bool {
    match r {
        Ok((count, address)) => count == read && decodes(
            format,
            storage,
            length,
            Ok::<SocketAddr, IoError>(address),
        ),
        Err(error) => decodes(format, storage, length, Err::<SocketAddr, IoError>(error)),
    }
}

pub open spec fn missing_source() -> IoError {
    IoError::Message(ErrorKind::Other, "recvfrom completion missing source address")
}

pub open spec fn no_completed_recvfrom() -> IoError {
    IoError::Message(
        ErrorKind::Unsupported,
        "completion-based recvfrom is unsupported on this Unix platform",
    )
}

impl<'a, B: IoBufMut> RecvfromOp<'a, B> {
    pub fn new(handle: &'a InnerRawHandle, buf: B) -> (r: Self)
        ensures
            r.handle == handle,
            r.buf.value() == buf,
            r.buf is Boxed <==> handle.completion,
            r.completion_state is None,
            !r.peek,
            r.completion_token is None,
    {
        RecvfromOp {
            handle,
            buf: CompletionBuffer::new(buf, handle.uses_completion()),
            completion_state: None,
            peek: false,
            completion_token: None,
        }
    }

    pub fn new_peek(handle: &'a InnerRawHandle, buf: B) -> (r: Self)
        ensures
            r.handle == handle,
            r.buf.value() == buf,
            r.buf is Boxed <==> handle.completion,
            r.completion_state is None,
            r.peek,
            r.completion_token is None,
    {
        RecvfromOp {
            handle,
            buf: CompletionBuffer::new(buf, handle.uses_completion()),
            completion_state: None,
            peek: true,
            completion_token: None,
        }
    }

    /// Reclaim the buffer of an operation that is not with its driver.
    pub fn take_bufs(self) -> (r: B)
        requires
            self.completion_token is None,
        ensures
            r == self.buf.value(),
    {
        self.buf.into_inner()
    }

    /// Give the operation up. One that is with its driver leaves its buffer and
    /// its header there.
    pub fn cancel(self) -> (r: Option<Cancelled<(Option<Box<MessageState>>, Box<B>)>>)
        ensures
            r == match self.completion_token {
                Some(token) => Some(
                    Cancelled {
                        driver: self.handle.driver,
                        token,
                        storage: (self.completion_state, Box::new(self.buf.value())),
                    },
                ),
                None => None,
            },
    {
        match self.completion_token {
            Some(token) => Some(
                Cancelled {
                    driver: self.handle.driver,
                    token,
                    storage: (self.completion_state, self.buf.into_stable_box()),
                },
            ),
            None => None,
        }
    }

    /// Take in the result of the call: a datagram with the storage and length of
    /// its source, or a reason to wait or to fail.
    pub fn poll_poll(&mut self, result: Result<(usize, [u8; 128], usize), IoError>) -> (r: Attempt<
        (usize, SocketAddr),
    >)
        requires
            result matches Ok((read, _, _)) ==> read <= old(self).buf.value().room(),
        ensures
            match result {
                Ok((read, storage, length)) => {
                    &&& r matches Attempt::Done(done) && datagram(
                        old(self).handle.addresses(),
                        read,
                        storage@,
                        length,
                        done,
                    )
                    &&& if r matches Attempt::Done(Ok(_)) {
                        B::initialized(old(self).buf.value(), read, final(self).buf.value())
                    } else {
                        final(self).buf == old(self).buf
                    }
                },
                Err(error) => {
                    &&& r == if error.would_block() {
                        Attempt::AwaitReadiness(Interest::Readable)
                    } else {
                        Attempt::Done(Err::<(usize, SocketAddr), IoError>(error))
                    }
                    &&& final(self).buf == old(self).buf
                },
            },
            final(self).buf is Boxed <==> old(self).buf is Boxed,
            final(self).handle == old(self).handle,
            final(self).completion_token == old(self).completion_token,
            final(self).completion_state == old(self).completion_state,
            final(self).peek == old(self).peek,
    {
        let received = match result {
            Ok((read, storage, length)) => match sockaddr_storage_to_socketaddr(
                self.handle.addresses(),
                &storage,
                length,
            ) {
                Ok(address) => {
                    let buf = self.buf.as_mut();
                    buf.set_buf_init(read);
                    return Attempt::Done(Ok((read, address)));
                },
                Err(error) => {
                    return Attempt::Done(Err(error));
                },
            },
            Err(error) => Err(error),
        };
        poll_result_or_wait(received, Interest::Readable)
    }

    /// Take in how the overlapped call was started. `error` is the code of a call
    /// that did not succeed at once.
    pub fn windows_started(&mut self, error: Option<i32>) -> (r: Result<(), IoError>)
        ensures
            r == overlapped_spec(error),
            final(self).completion_state == if r is Ok {
                old(self).completion_state
            } else {
                None
            },
            final(self).handle == old(self).handle,
            final(self).buf == old(self).buf,
            final(self).completion_token == old(self).completion_token,
            final(self).peek == old(self).peek,
    {
        let started = overlapped_started(error);
        if started.is_err() {
            self.completion_state = None;
        }
        started
    }

    /// The header of a receive of `transfer_len` bytes. An earlier header keeps its
    /// allocation and its address storage; every other field is set anew.
    fn reset_state(&mut self, transfer_len: usize, flags: i32)
        ensures
            state_reset(
                old(self).completion_state,
                final(self).completion_state,
                transfer_len,
                flags,
            ),
            final(self).handle == old(self).handle,
            final(self).buf == old(self).buf,
            final(self).completion_token == old(self).completion_token,
            final(self).peek == old(self).peek,
    {
        match self.completion_state.as_mut() {
            Some(state) => {
                state.address_len = STORAGE_LEN;
                state.transfer_len = transfer_len;
                state.vectors = 1;
                state.control_len = 0;
                state.flags = flags;
            },
            None => {
                self.completion_state =
                Some(
                    Box::new(
                        MessageState {
                            address: [0u8; 128],
                            address_len: STORAGE_LEN,
                            transfer_len,
                            vectors: 1,
                            control_len: 0,
                            flags,
                        },
                    ),
                );
            },
        }
    }
}

/// `after` is a header fit for a receive, on the address storage of `before`.
pub open spec fn state_reset(
    before: Option<Box<MessageState>>,
    after: Option<Box<MessageState>>,
    transfer_len: usize,
    flags: i32,
) -> bool {
    after matches Some(state) && {
        &&& state.address_len == STORAGE_LEN
        &&& state.transfer_len == transfer_len
        &&& state.vectors == 1
        &&& state.control_len == 0
        &&& state.flags == flags
        &&& match before {
            Some(earlier) => state.address == earlier.address,
            None => forall|i: int| 0 <= i < STORAGE_LEN ==> #[trigger] state.address@[i] == 0,
        }
    }
}

impl<'a, B: IoBufMut> Op for RecvfromOp<'a, B> {
    type Output = (usize, SocketAddr);

    open spec fn token(&self) -> Option<usize> {
        self.completion_token
    }

    /// A count within the buffer, or an error; any result where it is not looked at.
    open spec fn admits(&self, result: i32) -> bool {
        self.handle.system() == System::Macos || result <= self.buf.value().room()
    }

    fn completion_token(&self) -> (r: Option<usize>) {
        self.completion_token
    }

    fn poll_call(&self) -> (r: Result<SystemCall, IoError>)
        ensures
            r == match self.handle.handle {
                RawOsHandle::Fd(fd) => Ok::<SystemCall, IoError>(
                    SystemCall::RecvFrom {
                        fd,
                        len: self.buf.value().room(),
                        flags: peek_flags(self.peek),
                    },
                ),
                RawOsHandle::Socket(socket) => match transfer_len_spec(
                    self.buf.value().room(),
                    "read buffer is too large for Windows socket I/O",
                ) {
                    Ok(len) => Ok(
                        SystemCall::WsaRecvFrom {
                            socket,
                            len,
                            flags: peek_flags(self.peek) as u32,
                        },
                    ),
                    Err(error) => Err(error),
                },
                RawOsHandle::Handle(_) => Err(
                    IoError::Message(
                        ErrorKind::Unsupported,
                        "poll-based recvfrom currently supports sockets only on Windows",
                    ),
                ),
            },
    {
        let capacity: usize = self.buf.as_ref().buf_capacity();
        let flags: i32 = receive_flags(self.peek);
        match self.handle.handle {
            RawOsHandle::Fd(fd) => Ok(SystemCall::RecvFrom { fd, len: capacity, flags }),
            RawOsHandle::Socket(socket) => match transfer_len(
                capacity,
                "read buffer is too large for Windows socket I/O",
            ) {
                Ok(len) => Ok(SystemCall::WsaRecvFrom { socket, len, flags: flags as u32 }),
                Err(error) => Err(error),
            },
            RawOsHandle::Handle(_) => Err(
                IoError::Message(
                    ErrorKind::Unsupported,
                    "poll-based recvfrom currently supports sockets only on Windows",
                ),
            ),
        }
    }

    fn poll_completion(&mut self, reply: Reply) -> (r: Poll<Result<(usize, SocketAddr), IoError>>)
        ensures
            match reply.settled() {
                Settled::Pending => r is Pending && final(self).buf == old(self).buf,
                Settled::Refused(error) => r == Poll::Ready(
                    Err::<(usize, SocketAddr), IoError>(error),
                ) && final(self).buf == old(self).buf,
                Settled::Result(result) => if result < 0 {
                    r == Poll::Ready(
                        Err::<(usize, SocketAddr), IoError>(
                            crate::error::completion_error_spec(
                                old(self).handle.system(),
                                result,
                            ),
                        ),
                    ) && final(self).buf == old(self).buf
                } else if old(self).handle.system() == System::Macos {
                    r == Poll::Ready(
                        Err::<(usize, SocketAddr), IoError>(no_completed_recvfrom()),
                    ) && final(self).buf == old(self).buf
                } else {
                    &&& r matches Poll::Ready(done) && match old(self).completion_state {
                        Some(state) => datagram(
                            old(self).handle.addresses(),
                            result as usize,
                            state.address@,
                            state.address_len,
                            done,
                        ),
                        None => done == Err::<(usize, SocketAddr), IoError>(missing_source()),
                    }
                    &&& B::initialized(
                        old(self).buf.value(),
                        result as usize,
                        final(self).buf.value(),
                    )
                },
            },
            final(self).completion_token == reply.token_after(old(self).completion_token),
            final(self).buf is Boxed <==> old(self).buf is Boxed,
            final(self).handle == old(self).handle,
            final(self).completion_state == old(self).completion_state,
            final(self).peek == old(self).peek,
    {
        match settle(&mut self.completion_token, reply) {
            Settled::Pending => Poll::Pending,
            Settled::Refused(error) => Poll::Ready(Err(error)),
            Settled::Result(result) => {
                if result < 0 {
                    return Poll::Ready(Err(crate::error::completion_error(self.handle.system(), result)));
                }
                if matches!(self.handle.system(), System::Macos) {
                    return Poll::Ready(
                        Err(
                            IoError::Message(
                                ErrorKind::Unsupported,
                                "completion-based recvfrom is unsupported on this Unix platform",
                            ),
                        ),
                    );
                }
                let read: usize = result as usize;
                let address = match &self.completion_state {
                    Some(state) => sockaddr_storage_to_socketaddr(
                        self.handle.addresses(),
                        &state.address,
                        state.address_len,
                    ),
                    None => Err(
                        IoError::Message(
                            ErrorKind::Other,
                            "recvfrom completion missing source address",
                        ),
                    ),
                };
                let buf = self.buf.as_mut();
                buf.set_buf_init(read);
                match address {
                    Ok(address) => Poll::Ready(Ok((read, address))),
                    Err(error) => Poll::Ready(Err(error)),
                }
            },
        }
    }

    fn build_completion_entry(&mut self, user_data: u64) -> (r: Result<CompletionEntry, IoError>)
        ensures
            match old(self).handle.handle {
                RawOsHandle::Fd(fd) => {
                    &&& r == Ok::<CompletionEntry, IoError>(
                        CompletionEntry {
                            fd,
                            opcode: Opcode::RecvMsg { flags: peek_flags(old(self).peek) as u32 },
                            user_data,
                        },
                    )
                    &&& state_reset(
                        old(self).completion_state,
                        final(self).completion_state,
                        old(self).buf.value().room(),
                        0,
                    )
                },
                _ => {
                    &&& r == Err::<CompletionEntry, IoError>(no_completion())
                    &&& final(self).completion_state == old(self).completion_state
                },
            },
            final(self).handle == old(self).handle,
            final(self).buf == old(self).buf,
            final(self).completion_token == old(self).completion_token,
            final(self).peek == old(self).peek,
    {
        match self.handle.handle {
            RawOsHandle::Fd(fd) => {
                let capacity: usize = self.buf.as_ref().buf_capacity();
                self.reset_state(capacity, 0);
                Ok(
                    CompletionEntry {
                        fd,
                        opcode: Opcode::RecvMsg { flags: receive_flags(self.peek) as u32 },
                        user_data,
                    },
                )
            },
            _ => Err(completion_unsupported()),
        }
    }

    fn submit_windows(&mut self) -> (r: Result<WindowsCall, IoError>)
        ensures
            r == match old(self).handle.handle {
                RawOsHandle::Socket(socket) => match transfer_len_spec(
                    old(self).buf.value().room(),
                    "read buffer is too large for Windows socket I/O",
                ) {
                    Ok(len) => Ok::<WindowsCall, IoError>(
                        WindowsCall::WsaRecvFrom {
                            socket,
                            len,
                            flags: peek_flags(old(self).peek) as u32,
                        },
                    ),
                    Err(error) => Err(error),
                },
                RawOsHandle::Handle(_) => Err(
                    invalid_input("WSARecvFrom can be used only with sockets"),
                ),
                RawOsHandle::Fd(_) => Err(no_completion()),
            },
            if r is Ok {
                state_reset(
                    old(self).completion_state,
                    final(self).completion_state,
                    old(self).buf.value().room(),
                    peek_flags(old(self).peek),
                )
            } else {
                final(self).completion_state == old(self).completion_state
            },
            final(self).handle == old(self).handle,
            final(self).buf == old(self).buf,
            final(self).completion_token == old(self).completion_token,
            final(self).peek == old(self).peek,
    {
        let socket: u64 = match self.handle.handle {
            RawOsHandle::Socket(socket) => socket,
            RawOsHandle::Handle(_) => {
                return Err(
                    IoError::Message(
                        ErrorKind::InvalidInput,
                        "WSARecvFrom can be used only with sockets",
                    ),
                );
            },
            RawOsHandle::Fd(_) => {
                return Err(completion_unsupported());
            },
        };
        let capacity: usize = self.buf.as_ref().buf_capacity();
        let flags: i32 = receive_flags(self.peek);
        match transfer_len(capacity, "read buffer is too large for Windows socket I/O") {
            Ok(len) => {
                self.reset_state(capacity, flags);
                Ok(WindowsCall::WsaRecvFrom { socket, len, flags: flags as u32 })
            },
            Err(error) => Err(error),
        }
    }
}

/// A completed receive reports the bytes that came with the source that the header holds,
/// and records as many bytes in its buffer. Without a header the source is missing. macOS
/// has no such receive; a failure leaves the buffer as it was.
pub proof fn completed_datagrams_come_with_their_source<'a, B: IoBufMut>(
    before: RecvfromOp<'a, B>,
    after: RecvfromOp<'a, B>,
    reply: Reply,
    r: Poll<Result<(usize, SocketAddr), IoError>>,
    result: i32,
    token: usize,
    error: IoError,
    decoded: Result<SocketAddr, IoError>,
)
    requires
        exists|op: &mut RecvfromOp<'a, B>|
            *op == before && *final(op) == after && #[trigger] call_ensures(
                <RecvfromOp<'a, B> as Op>::poll_completion,
                (op, reply),
                r,
            ),
        before.completion_state matches Some(header) ==> call_ensures(
            sockaddr_storage_to_socketaddr,
            (before.handle.addresses(), &header.address, header.address_len),
            decoded,
        ),
    ensures
        (reply == Reply::Submitted(CompletionIoResult::Completed(result)) || reply
            == Reply::Collected(
            Some(result),
        )) && result >= 0 && !(before.handle.system() is Macos) ==> (r matches Poll::Ready(done)
            && B::initialized(before.buf.value(), result as usize, after.buf.value())
            && match before.completion_state {
            Some(_) => (match (done, decoded) {
            (Ok((count, address)), Ok(own)) => count == result && address.same(own),
            (Err(a), Err(b)) => a == b,
            _ => false,
        }),
            None => done matches Err(own) && (own matches IoError::Message(kind, _)
                && kind is Other),
        }),
        (reply == Reply::Submitted(CompletionIoResult::Completed(result)) || reply
            == Reply::Collected(
            Some(result),
        )) && result >= 0 && before.handle.system() is Macos ==> after.buf == before.buf
            && (r matches
            Poll::Ready(Err(own)) && (own matches IoError::Message(kind, _)
                && kind is Unsupported)),
        (reply == Reply::Submitted(CompletionIoResult::Completed(result)) || reply
            == Reply::Collected(
            Some(result),
        )) && i32::MIN < result < 0 ==> (r matches Poll::Ready(
            Err(IoError::Os(own, code)),
        ) && own == before.handle.system() && code == -result),
        (reply == Reply::Submitted(CompletionIoResult::Completed(result)) || reply
            == Reply::Collected(
            Some(result),
        )) ==> after.completion_token is None && (result < 0 ==> after.buf == before.buf),
        reply == Reply::Submitted(CompletionIoResult::Retry(token)) ==> r is Pending
            && after.completion_token == Some(token),
        reply == Reply::Submitted(CompletionIoResult::SubmitErr(error))
            ==> after.completion_token is None
            && r == Poll::Ready(Err::<(usize, SocketAddr), IoError>(error)),
        reply == Reply::Collected(None) ==> r is Pending && after.completion_token
            == before.completion_token,
        r is Pending ==> after.buf == before.buf,
        after.handle == before.handle && after.peek == before.peek && after.completion_state
            == before.completion_state && (after.buf is Boxed <==> before.buf is Boxed),
{
    if let Some(header) = before.completion_state {
        if let Poll::Ready(done) = r {
            let claimed = match done {
                Ok((_, address)) => Ok::<SocketAddr, IoError>(address),
                Err(error) => Err(error),
            };
            if decodes(before.handle.addresses(), header.address@, header.address_len, claimed) {
                crate::op::socket_addr::decodings_are_unique(
                    before.handle.addresses(),
                    header.address,
                    header.address_len,
                    claimed,
                    decoded,
                );
            }
        }
    }
}

/// A polled receive reports the bytes that came with their source, and records as many in
/// its buffer; where the source cannot be told, or the call failed, the buffer stays. It
/// waits only where the call would have had to.
pub proof fn polled_datagrams_come_with_their_source<'a, B: IoBufMut>(
    before: RecvfromOp<'a, B>,
    after: RecvfromOp<'a, B>,
    read: usize,
    storage: [u8; 128],
    length: usize,
    decoded: Result<SocketAddr, IoError>,
    r: Attempt<(usize, SocketAddr)>,
)
    requires
        exists|op: &mut RecvfromOp<'a, B>|
            *op == before && *final(op) == after && #[trigger] call_ensures(
                RecvfromOp::<'a, B>::poll_poll,
                (op, Ok((read, storage, length))),
                r,
            ),
        call_ensures(
            sockaddr_storage_to_socketaddr,
            (before.handle.addresses(), &storage, length),
            decoded,
        ),
    ensures
        r matches Attempt::Done(done) && (match (done, decoded) {
            (Ok((count, address)), Ok(own)) => count == read && address.same(own),
            (Err(a), Err(b)) => a == b,
            _ => false,
        }),
        match decoded {
            Ok(_) => B::initialized(before.buf.value(), read, after.buf.value()),
            Err(_) => after.buf == before.buf,
        },
        after.handle == before.handle && after.peek == before.peek && after.completion_token
            == before.completion_token && after.completion_state == before.completion_state,
{
    if let Attempt::Done(done) = r {
        let claimed = match done {
            Ok((_, address)) => Ok::<SocketAddr, IoError>(address),
            Err(error) => Err(error),
        };
        crate::op::socket_addr::decodings_are_unique(
            before.handle.addresses(),
            storage,
            length,
            claimed,
            decoded,
        );
    }
}

/// A receive whose call failed waits where it would have had to, and else fails as the call
/// did; its buffer stays.
pub proof fn failed_datagrams_leave_the_buffer<'a, B: IoBufMut>(
    before: RecvfromOp<'a, B>,
    after: RecvfromOp<'a, B>,
    error: IoError,
    r: Attempt<(usize, SocketAddr)>,
)
    requires
        exists|op: &mut RecvfromOp<'a, B>|
            *op == before && *final(op) == after && #[trigger] call_ensures(
                RecvfromOp::<'a, B>::poll_poll,
                (op, Err(error)),
                r,
            ),
    ensures
        if error.would_block() {
            r == Attempt::<(usize, SocketAddr)>::AwaitReadiness(Interest::Readable)
        } else {
            r == Attempt::Done(Err::<(usize, SocketAddr), IoError>(error))
        },
        after.buf == before.buf,
{
}

/// A receive offers all the room of its buffer, in one vector, and room for any source;
/// only a peek, by flag 2, leaves the datagram queued.
pub proof fn datagrams_are_received_into_all_the_room<'a, B: IoBufMut>(
    before: RecvfromOp<'a, B>,
    after: RecvfromOp<'a, B>,
    user_data: u64,
    r: Result<CompletionEntry, IoError>,
)
    requires
        exists|op: &mut RecvfromOp<'a, B>|
            *op == before && *final(op) == after && #[trigger] call_ensures(
                <RecvfromOp<'a, B> as Op>::build_completion_entry,
                (op, user_data),
                r,
            ),
    ensures
        r matches Ok(entry) ==> {
            &&& before.handle.handle == RawOsHandle::Fd(entry.fd)
            &&& entry.user_data == user_data
            &&& entry.opcode matches Opcode::RecvMsg { flags } && flags == if before.peek {
                2u32
            } else {
                0u32
            }
        },
        r is Ok <==> before.handle.handle is Fd,
        r is Ok ==> (after.completion_state matches Some(header) && match before.completion_state {
            Some(kept) => header.address == kept.address,
            None => forall|i: int| 0 <= i < 128 ==> #[trigger] header.address@[i] == 0,
        }),
        r is Ok ==> (after.completion_state matches Some(header) && header.address_len == 128
            && header.transfer_len == before.buf.value().room() && header.vectors == 1
            && header.control_len == 0 && header.flags == 0),
        r is Err ==> after.completion_state == before.completion_state,
        after.buf == before.buf && after.handle == before.handle && after.peek == before.peek
            && after.completion_token == before.completion_token,
{
}

/// On Windows a receive offers its socket all the room of its buffer, and room for any
/// source.
pub proof fn windows_datagrams_are_received_into_all_the_room<'a, B: IoBufMut>(
    before: RecvfromOp<'a, B>,
    after: RecvfromOp<'a, B>,
    r: Result<WindowsCall, IoError>,
)
    requires
        exists|op: &mut RecvfromOp<'a, B>|
            *op == before && *final(op) == after && #[trigger] call_ensures(
                <RecvfromOp<'a, B> as Op>::submit_windows,
                (op,),
                r,
            ),
    ensures
        r matches Ok(call) ==> (call matches WindowsCall::WsaRecvFrom { socket, len, flags }
            && before.handle.handle == RawOsHandle::Socket(socket) && len
            == before.buf.value().room() && flags == if before.peek {
            2u32
        } else {
            0u32
        }),
        r is Ok <==> before.handle.handle is Socket && before.buf.value().room() < 0x8000_0000,
        r is Ok ==> (after.completion_state matches Some(header) && match before.completion_state {
            Some(kept) => header.address == kept.address,
            None => forall|i: int| 0 <= i < 128 ==> #[trigger] header.address@[i] == 0,
        }),
        r is Ok ==> (after.completion_state matches Some(header) && header.address_len == 128
            && header.transfer_len == before.buf.value().room() && header.vectors == 1
            && header.control_len == 0 && header.flags == (if before.peek {
            2i32
        } else {
            0i32
        })),
        r is Err ==> after.completion_state == before.completion_state,
        after.buf == before.buf && after.handle == before.handle && after.peek == before.peek
            && after.completion_token == before.completion_token,
{
}

/// A polled receive offers all the room of its buffer to its own socket.
pub proof fn polled_datagrams_are_received_into_all_the_room<'a, B: IoBufMut>(
    op: RecvfromOp<'a, B>,
    r: Result<SystemCall, IoError>,
)
    requires
        call_ensures(<RecvfromOp<'a, B> as Op>::poll_call, (&op,), r),
    ensures
        op.handle.handle matches RawOsHandle::Fd(fd) ==> (r matches Ok(
            SystemCall::RecvFrom { fd: own, len, flags },
        ) && own == fd && len == op.buf.value().room() && flags == if op.peek {
            2i32
        } else {
            0i32
        }),
        op.handle.handle matches RawOsHandle::Socket(socket) ==> op.buf.value().room() < 0x8000_0000
            ==> (r matches Ok(SystemCall::WsaRecvFrom { socket: own, len, flags }) && own == socket
            && len == op.buf.value().room() && flags == if op.peek {
            2u32
        } else {
            0u32
        }),
        r is Err <==> op.handle.handle is Handle || (op.handle.handle is Socket
            && op.buf.value().room() >= 0x8000_0000),
{
}

/// A receive that is with its driver leaves buffer and header there.
pub proof fn cancelled_datagram_receives_leave_their_storage<'a, B: IoBufMut>(
    op: RecvfromOp<'a, B>,
    r: Option<Cancelled<(Option<Box<MessageState>>, Box<B>)>>,
)
    requires
        call_ensures(RecvfromOp::<'a, B>::cancel, (op,), r),
    ensures
        r is Some <==> op.completion_token is Some,
        r matches Some(left) ==> op.completion_token == Some(left.token) && left.driver
            == op.handle.driver && left.storage.0 == op.completion_state && *left.storage.1
                == op.buf.value(),
{
}

/// A receive takes the datagram; a peek leaves it queued.
pub proof fn only_datagram_peeks_peek<'a, B: IoBufMut>(
    handle: &'a InnerRawHandle,
    buf: B,
    taking: RecvfromOp<'a, B>,
    peeking: RecvfromOp<'a, B>,
)
    requires
        call_ensures(RecvfromOp::<'a, B>::new, (handle, buf), taking),
        call_ensures(RecvfromOp::<'a, B>::new_peek, (handle, buf), peeking),
    ensures
        !taking.peek && peeking.peek,
        taking.handle == handle && peeking.handle == handle,
        taking.buf.value() == buf && peeking.buf.value() == buf,
        taking.completion_token is None && peeking.completion_token is None,
        taking.completion_state is None && peeking.completion_state is None,
{
}

/// A receive that could not be started holds no header; one that goes on keeps it.
pub proof fn failed_receives_drop_the_header<'a, B: IoBufMut>(
    before: RecvfromOp<'a, B>,
    after: RecvfromOp<'a, B>,
    error: Option<i32>,
    r: Result<(), IoError>,
)
    requires
        exists|op: &mut RecvfromOp<'a, B>|
            *op == before && *final(op) == after && #[trigger] call_ensures(
                RecvfromOp::<'a, B>::windows_started,
                (op, error),
                r,
            ),
    ensures
        r is Ok <==> error is None || error == Some(997i32),
        after.completion_state == if r is Ok { before.completion_state } else { None },
        after.buf == before.buf && after.peek == before.peek && after.handle == before.handle
            && after.completion_token == before.completion_token,
{
}

/// A datagram receive is made for the handle it is given, with the driver not asked yet, and gives its buffer
/// back unchanged.
pub proof fn datagram_receives_are_made_for_their_handle<'a, B: IoBufMut>(
    handle: &'a InnerRawHandle,
    buf: B,
    made: RecvfromOp<'a, B>,
    back: B,
)
    requires
        call_ensures(RecvfromOp::<'a, B>::new, (handle, buf), made),
        call_ensures(RecvfromOp::<'a, B>::take_bufs, (made,), back),
    ensures
        made.handle == handle && made.completion_token is None,
        made.buf.value() == buf && (made.buf is Boxed <==> handle.completion),
        !made.peek && made.completion_state is None,
        back == buf,
{
}

/// A datagram receive asks for the result under its token exactly while it has one.
pub proof fn datagram_receives_ask_under_their_token<'a, B: IoBufMut>(
    op: RecvfromOp<'a, B>,
    token: Option<usize>,
    request: Request,
)
    requires
        call_ensures(<RecvfromOp<'a, B> as Op>::completion_token, (&op,), token),
        call_ensures(<RecvfromOp<'a, B> as Op>::request, (&op,), request),
    ensures
        token == op.completion_token && op.token() == op.completion_token,
        request is Submit <==> op.completion_token is None,
        request matches Request::Collect(own) ==> op.completion_token == Some(own),
{
}

} // verus!
