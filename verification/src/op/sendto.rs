//! Sending datagrams to an address.

use vstd::prelude::*;

use crate::error::{ErrorKind, IoError};
use crate::handle::{InnerRawHandle, RawOsHandle};
use crate::io::IoBuf;
use crate::op::io_util::{invalid_input, transfer_len, transfer_len_spec, CompletionBuffer};
use crate::op::recvfrom::MessageState;
use crate::op::socket_addr::{encodes, socket_addr_to_raw, AddressFormat, SocketAddr};
use crate::op::{
    completion_unsupported, no_completion, overlapped_spec, overlapped_started, settle,
    transfer_poll, transfer_result, Cancelled, CompletionEntry, CompletionIoResult, Op, Opcode,
    Reply, Request, Settled, SystemCall, WindowsCall,
};
use crate::poll::{attempt_spec, poll_result_or_wait, Attempt, Interest, Poll};

verus! {

/// A send of one datagram to an address.
pub struct SendtoOp<'a, B> {
    pub handle: &'a InnerRawHandle,
    pub buf: CompletionBuffer<B>,
    pub addr: SocketAddr,
    pub completion_token: Option<usize>,
    pub completion_state: Option<Box<MessageState>>,
}

/// The header is one for a send of `transfer_len` bytes to `addr`.
pub open spec fn state_for(
    state: Option<Box<MessageState>>,
    format: AddressFormat,
    addr: SocketAddr,
    transfer_len: usize,
) -> bool {
    state matches Some(header) && {
        &&& encodes(format, addr, header.address@, header.address_len)
        &&& header.transfer_len == transfer_len
        &&& header.vectors == 1
        &&& header.control_len == 0
        &&& header.flags == 0
    }
}

impl<'a, B: IoBuf> SendtoOp<'a, B> {
    pub fn new(handle: &'a InnerRawHandle, buf: B, addr: SocketAddr) -> (r: Self)
        ensures
            r.handle == handle,
            r.buf.value() == buf,
            r.buf is Boxed <==> handle.completion,
            r.addr == addr,
            r.completion_state is None,
            r.completion_token is None,
    {
        SendtoOp {
            handle,
            buf: CompletionBuffer::new(buf, handle.uses_completion()),
            addr,
            completion_state: None,
            completion_token: None,
        }
    }

    /// Reclaim the buffer of an operation that is not with its driver.
    pub fn take_bufs(self) -> (r: B)
        requires
            self.completion_token is None,
        ensures
            r == self.buf.value(),
    {
        self.buf.into_inner()
    }

    /// Give the operation up. One that is with its driver leaves its buffer and
    /// its header there.
    pub fn cancel(self) -> (r: Option<Cancelled<(Option<Box<MessageState>>, Box<B>)>>)
        ensures
            r == match self.completion_token {
                Some(token) => Some(
                    Cancelled {
                        driver: self.handle.driver,
                        token,
                        storage: (self.completion_state, Box::new(self.buf.value())),
                    },
                ),
                None => None,
            },
    {
        match self.completion_token {
            Some(token) => Some(
                Cancelled {
                    driver: self.handle.driver,
                    token,
                    storage: (self.completion_state, self.buf.into_stable_box()),
                },
            ),
            None => None,
        }
    }

    /// Take in the result of the call: a count, or a reason to wait or to fail.
    pub fn poll_poll(&mut self, result: Result<usize, IoError>) -> (r: Attempt<usize>)
        ensures
            r == attempt_spec(result, Interest::Writable),
            *final(self) == *old(self),
    {
        poll_result_or_wait(result, Interest::Writable)
    }

    /// The destination as the kernel takes it.
    pub fn destination(&self) -> (r: ([u8; 128], usize))
        ensures
            encodes(self.handle.addresses(), self.addr, r.0@, r.1),
    {
        socket_addr_to_raw(self.handle.addresses(), self.addr)
    }

    /// Take in how the overlapped call was started. `error` is the code of a call
    /// that did not succeed at once.
    pub fn windows_started(&mut self, error: Option<i32>) -> (r: Result<(), IoError>)
        ensures
            r == overlapped_spec(error),
            final(self).completion_state == if r is Ok {
                old(self).completion_state
            } else {
                None
            },
            final(self).handle == old(self).handle,
            final(self).buf == old(self).buf,
            final(self).addr == old(self).addr,
            final(self).completion_token == old(self).completion_token,
    {
        let started = overlapped_started(error);
        if started.is_err() {
            self.completion_state = None;
        }
        started
    }

    /// Set every field of the header anew, in the allocation of an earlier one.
    fn reset_state(&mut self, transfer_len: usize)
        ensures
            state_for(
                final(self).completion_state,
                old(self).handle.addresses(),
                old(self).addr,
                transfer_len,
            ),
            final(self).handle == old(self).handle,
            final(self).buf == old(self).buf,
            final(self).addr == old(self).addr,
            final(self).completion_token == old(self).completion_token,
    {
        let (address, address_len) = socket_addr_to_raw(self.handle.addresses(), self.addr);
        let header = MessageState {
            address,
            address_len,
            transfer_len,
            vectors: 1,
            control_len: 0,
            flags: 0,
        };
        match self.completion_state.as_mut() {
            Some(state) => {
                **state = header;
            },
            None => {
                self.completion_state = Some(Box::new(header));
            },
        }
    }
}

impl<'a, B: IoBuf> Op for SendtoOp<'a, B> {
    type Output = usize;

    open spec fn token(&self) -> Option<usize> {
        self.completion_token
    }

    open spec fn admits(&self, result: i32) -> bool {
        true
    }

    fn completion_token(&self) -> (r: Option<usize>) {
        self.completion_token
    }

    fn poll_call(&self) -> (r: Result<SystemCall, IoError>)
        ensures
            r == match self.handle.handle {
                RawOsHandle::Fd(fd) => Ok::<SystemCall, IoError>(
                    SystemCall::SendTo { fd, len: self.buf.value().filled() },
                ),
                RawOsHandle::Socket(socket) => match transfer_len_spec(
                    self.buf.value().filled(),
                    "write buffer is too large for Windows socket I/O",
                ) {
                    Ok(len) => Ok(SystemCall::WsaSendTo { socket, len }),
                    Err(error) => Err(error),
                },
                RawOsHandle::Handle(_) => Err(
                    IoError::Message(
                        ErrorKind::Unsupported,
                        "poll-based sendto currently supports sockets only on Windows",
                    ),
                ),
            },
    {
        let filled: usize = self.buf.as_ref().buf_len();
        match self.handle.handle {
            RawOsHandle::Fd(fd) => Ok(SystemCall::SendTo { fd, len: filled }),
            RawOsHandle::Socket(socket) => match transfer_len(
                filled,
                "write buffer is too large for Windows socket I/O",
            ) {
                Ok(len) => Ok(SystemCall::WsaSendTo { socket, len }),
                Err(error) => Err(error),
            },
            RawOsHandle::Handle(_) => Err(
                IoError::Message(
                    ErrorKind::Unsupported,
                    "poll-based sendto currently supports sockets only on Windows",
                ),
            ),
        }
    }

    fn poll_completion(&mut self, reply: Reply) -> (r: Poll<Result<usize, IoError>>)
        ensures
            r == transfer_poll(old(self).handle.system(), reply),
            final(self).completion_token == reply.token_after(old(self).completion_token),
            final(self).handle == old(self).handle,
            final(self).buf == old(self).buf,
            final(self).addr == old(self).addr,
            final(self).completion_state == old(self).completion_state,
    {
        match settle(&mut self.completion_token, reply) {
            Settled::Pending => Poll::Pending,
            Settled::Refused(error) => Poll::Ready(Err(error)),
            Settled::Result(result) => Poll::Ready(transfer_result(self.handle.system(), result)),
        }
    }

    fn build_completion_entry(&mut self, user_data: u64) -> (r: Result<CompletionEntry, IoError>)
        ensures
            match old(self).handle.handle {
                RawOsHandle::Fd(fd) => {
                    &&& r == Ok::<CompletionEntry, IoError>(
                        CompletionEntry { fd, opcode: Opcode::SendMsg, user_data },
                    )
                    &&& state_for(
                        final(self).completion_state,
                        old(self).handle.addresses(),
                        old(self).addr,
                        old(self).buf.value().filled(),
                    )
                },
                _ => {
                    &&& r == Err::<CompletionEntry, IoError>(no_completion())
                    &&& final(self).completion_state == old(self).completion_state
                },
            },
            final(self).handle == old(self).handle,
            final(self).buf == old(self).buf,
            final(self).addr == old(self).addr,
            final(self).completion_token == old(self).completion_token,
    {
        match self.handle.handle {
            RawOsHandle::Fd(fd) => {
                let filled: usize = self.buf.as_ref().buf_len();
                self.reset_state(filled);
                Ok(CompletionEntry { fd, opcode: Opcode::SendMsg, user_data })
            },
            _ => Err(completion_unsupported()),
        }
    }

    fn submit_windows(&mut self) -> (r: Result<WindowsCall, IoError>)
        ensures
            r == match old(self).handle.handle {
                RawOsHandle::Socket(socket) => match transfer_len_spec(
                    old(self).buf.value().filled(),
                    "write buffer is too large for Windows socket I/O",
                ) {
                    Ok(len) => Ok::<WindowsCall, IoError>(
                        WindowsCall::WsaSendTo { socket, len },
                    ),
                    Err(error) => Err(error),
                },
                RawOsHandle::Handle(_) => Err(
                    invalid_input("WSASendTo can be used only with sockets"),
                ),
                RawOsHandle::Fd(_) => Err(no_completion()),
            },
            if r is Ok {
                state_for(
                    final(self).completion_state,
                    old(self).handle.addresses(),
                    old(self).addr,
                    old(self).buf.value().filled(),
                )
            } else {
                final(self).completion_state == old(self).completion_state
            },
            final(self).handle == old(self).handle,
            final(self).buf == old(self).buf,
            final(self).addr == old(self).addr,
            final(self).completion_token == old(self).completion_token,
    {
        let socket: u64 = match self.handle.handle {
            RawOsHandle::Socket(socket) => socket,
            RawOsHandle::Handle(_) => {
                return Err(
                    IoError::Message(
                        ErrorKind::InvalidInput,
                        "WSASendTo can be used only with sockets",
                    ),
                );
            },
            RawOsHandle::Fd(_) => {
                return Err(completion_unsupported());
            },
        };
        let filled: usize = self.buf.as_ref().buf_len();
        match transfer_len(filled, "write buffer is too large for Windows socket I/O") {
            Ok(len) => {
                self.reset_state(filled);
                Ok(WindowsCall::WsaSendTo { socket, len })
            },
            Err(error) => Err(error),
        }
    }
}

/// A completed datagram reports the bytes that went; buffer and destination stay.
pub proof fn completed_datagrams_count_what_went<'a, B: IoBuf>(
    before: SendtoOp<'a, B>,
    after: SendtoOp<'a, B>,
    reply: Reply,
    r: Poll<Result<usize, IoError>>,
    result: i32,
    token: usize,
    error: IoError,
)
    requires
        exists|op: &mut SendtoOp<'a, B>|
            *op == before && *final(op) == after && #[trigger] call_ensures(
                <SendtoOp<'a, B> as Op>::poll_completion,
                (op, reply),
                r,
            ),
    ensures
        (reply == Reply::Submitted(CompletionIoResult::Completed(result)) || reply
            == Reply::Collected(
            Some(result),
        )) ==> after.completion_token is None && (result >= 0 ==> (r matches
            Poll::Ready(Ok(count)) && count == result)) && (result < 0
                ==> (r matches Poll::Ready(Err(_)))),
        (reply == Reply::Submitted(CompletionIoResult::Completed(result)) || reply
            == Reply::Collected(
            Some(result),
        )) && i32::MIN < result < 0 ==> (r matches Poll::Ready(
            Err(IoError::Os(own, code)),
        ) && own == before.handle.system() && code == -result),
        reply == Reply::Submitted(CompletionIoResult::Retry(token)) ==> r is Pending
            && after.completion_token == Some(token),
        reply == Reply::Submitted(CompletionIoResult::SubmitErr(error))
            ==> after.completion_token is None
            && r == Poll::Ready(Err::<usize, IoError>(error)),
        reply == Reply::Collected(None) ==> r is Pending && after.completion_token
            == before.completion_token,
        after.buf == before.buf,
        after.handle == before.handle,
        after.addr == before.addr && after.completion_state == before.completion_state,
{
}

/// A datagram offers every byte of its buffer, in one vector, to the address that
/// it was made for.
pub proof fn datagrams_offer_all_bytes_to_their_address<'a, B: IoBuf>(
    before: SendtoOp<'a, B>,
    after: SendtoOp<'a, B>,
    user_data: u64,
    r: Result<CompletionEntry, IoError>,
)
    requires
        exists|op: &mut SendtoOp<'a, B>|
            *op == before && *final(op) == after && #[trigger] call_ensures(
                <SendtoOp<'a, B> as Op>::build_completion_entry,
                (op, user_data),
                r,
            ),
    ensures
        r matches Ok(entry) ==> {
            &&& before.handle.handle == RawOsHandle::Fd(entry.fd)
            &&& entry.user_data == user_data
            &&& entry.opcode is SendMsg
        },
        r is Ok <==> before.handle.handle is Fd,
        r is Ok ==> (after.completion_state matches Some(header) && header.transfer_len
            == before.buf.value().filled() && header.vectors == 1 && header.control_len == 0
            && header.flags == 0 && encodes(
            before.handle.addresses(),
            before.addr,
            header.address@,
            header.address_len,
        )),
        r is Err ==> after.completion_state == before.completion_state,
        after.buf == before.buf && after.handle == before.handle && after.addr == before.addr
            && after.completion_token == before.completion_token,
{
}

/// On Windows a datagram offers every byte of its buffer to the address that it was
/// made for.
pub proof fn windows_datagrams_offer_all_bytes_to_their_address<'a, B: IoBuf>(
    before: SendtoOp<'a, B>,
    after: SendtoOp<'a, B>,
    r: Result<WindowsCall, IoError>,
)
    requires
        exists|op: &mut SendtoOp<'a, B>|
            *op == before && *final(op) == after && #[trigger] call_ensures(
                <SendtoOp<'a, B> as Op>::submit_windows,
                (op,),
                r,
            ),
    ensures
        r matches Ok(call) ==> (call matches WindowsCall::WsaSendTo { socket, len }
            && before.handle.handle == RawOsHandle::Socket(socket) && len
            == before.buf.value().filled()),
        r is Ok <==> before.handle.handle is Socket && before.buf.value().filled() < 0x8000_0000,
        r is Ok ==> (after.completion_state matches Some(header) && header.transfer_len
            == before.buf.value().filled() && header.vectors == 1 && header.control_len == 0
            && header.flags == 0 && encodes(
            before.handle.addresses(),
            before.addr,
            header.address@,
            header.address_len,
        )),
        r is Err ==> after.completion_state == before.completion_state,
        after.buf == before.buf && after.handle == before.handle && after.addr == before.addr
            && after.completion_token == before.completion_token,
{
}

/// A polled datagram offers every byte of its buffer on its own socket.
pub proof fn polled_datagrams_offer_all_bytes<'a, B: IoBuf>(
    op: SendtoOp<'a, B>,
    r: Result<SystemCall, IoError>,
)
    requires
        call_ensures(<SendtoOp<'a, B> as Op>::poll_call, (&op,), r),
    ensures
        op.handle.handle matches RawOsHandle::Fd(fd) ==> (r matches Ok(
            SystemCall::SendTo { fd: own, len },
        ) && own == fd && len == op.buf.value().filled()),
        op.handle.handle matches RawOsHandle::Socket(socket) ==> op.buf.value().filled()
            < 0x8000_0000 ==> (r matches Ok(SystemCall::WsaSendTo { socket: own, len }) && own
            == socket && len == op.buf.value().filled()),
        r is Err <==> op.handle.handle is Handle || (op.handle.handle is Socket
            && op.buf.value().filled() >= 0x8000_0000),
{
}

/// A polled datagram reports what its call gave; it waits, until the socket can be
/// written, only where the call would have had to.
pub proof fn polled_datagrams_report_what_went<'a, B: IoBuf>(
    before: SendtoOp<'a, B>,
    after: SendtoOp<'a, B>,
    result: Result<usize, IoError>,
    r: Attempt<usize>,
)
    requires
        exists|op: &mut SendtoOp<'a, B>|
            *op == before && *final(op) == after && #[trigger] call_ensures(
                SendtoOp::<'a, B>::poll_poll,
                (op, result),
                r,
            ),
    ensures
        r matches Attempt::Done(own) ==> own == result,
        r matches Attempt::AwaitReadiness(awaited) ==> awaited is Writable,
        r is AwaitReadiness <==> (result matches Err(error) && error.would_block()),
        after == before,
{
}

/// The destination of a datagram is the address that it was made for.
pub proof fn datagrams_go_to_their_address<'a, B: IoBuf>(
    handle: &'a InnerRawHandle,
    buf: B,
    addr: SocketAddr,
    op: SendtoOp<'a, B>,
    raw: ([u8; 128], usize),
)
    requires
        call_ensures(SendtoOp::<'a, B>::new, (handle, buf, addr), op),
        call_ensures(SendtoOp::<'a, B>::destination, (&op,), raw),
    ensures
        op.addr == addr && op.handle == handle && op.buf.value() == buf,
        op.completion_token is None && op.completion_state is None,
        encodes(handle.addresses(), addr, raw.0@, raw.1),
{
}

/// A datagram that is with its driver leaves buffer and header there.
pub proof fn cancelled_datagrams_leave_their_storage<'a, B: IoBuf>(
    op: SendtoOp<'a, B>,
    r: Option<Cancelled<(Option<Box<MessageState>>, Box<B>)>>,
)
    requires
        call_ensures(SendtoOp::<'a, B>::cancel, (op,), r),
    ensures
        r is Some <==> op.completion_token is Some,
        r matches Some(left) ==> op.completion_token == Some(left.token) && left.driver
            == op.handle.driver && left.storage.0 == op.completion_state && *left.storage.1
                == op.buf.value(),
{
}

/// A datagram that could not be started holds no header; one that goes on keeps it.
pub proof fn failed_starts_drop_the_header<'a, B: IoBuf>(
    before: SendtoOp<'a, B>,
    after: SendtoOp<'a, B>,
    error: Option<i32>,
    r: Result<(), IoError>,
)
    requires
        exists|op: &mut SendtoOp<'a, B>|
            *op == before && *final(op) == after && #[trigger] call_ensures(
                SendtoOp::<'a, B>::windows_started,
                (op, error),
                r,
            ),
    ensures
        r is Ok <==> error is None || error == Some(997i32),
        after.completion_state == if r is Ok { before.completion_state } else { None },
        after.buf == before.buf && after.addr == before.addr && after.handle == before.handle
            && after.completion_token == before.completion_token,
{
}

/// A datagram is made for the handle it is given, with the driver not asked yet, and gives its buffer
/// back unchanged.
pub proof fn datagrams_are_made_for_their_handle<'a, B: IoBuf>(
    handle: &'a InnerRawHandle,
    buf: B,
    addr: SocketAddr,
    made: SendtoOp<'a, B>,
    back: B,
)
    requires
        call_ensures(SendtoOp::<'a, B>::new, (handle, buf, addr), made),
        call_ensures(SendtoOp::<'a, B>::take_bufs, (made,), back),
    ensures
        made.handle == handle && made.completion_token is None,
        made.buf.value() == buf && (made.buf is Boxed <==> handle.completion),
        made.addr == addr && made.completion_state is None,
        back == buf,
{
}

/// A datagram asks for the result under its token exactly while it has one.
pub proof fn datagrams_ask_under_their_token<'a, B: IoBuf>(
    op: SendtoOp<'a, B>,
    token: Option<usize>,
    request: Request,
)
    requires
        call_ensures(<SendtoOp<'a, B> as Op>::completion_token, (&op,), token),
        call_ensures(<SendtoOp<'a, B> as Op>::request, (&op,), request),
    ensures
        token == op.completion_token && op.token() == op.completion_token,
        request is Submit <==> op.completion_token is None,
        request matches Request::Collect(own) ==> op.completion_token == Some(own),
{
}

} // verus!
