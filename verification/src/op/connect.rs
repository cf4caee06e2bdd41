//! Connecting a socket.

use vstd::prelude::*;

use crate::error::{ErrorKind, IoError};
use crate::handle::{InnerRawHandle, RawOsHandle};
use crate::op::io_util::invalid_input;
use crate::op::socket_addr::{
    decodes, family_in, read_family, sockaddr_storage_to_socketaddr, AddressFormat, SocketAddr,
    AF_INET, STORAGE_LEN,
};
use crate::op::{
    completion_unsupported, no_completion, settle, Cancelled, CompletionEntry, CompletionIoResult,
    Op, Opcode, Reply, Request, Settled, WindowsCall,
};
use crate::poll::{Interest, Poll};
use crate::system::System;

verus! {

/// Winsock: an invalid argument, or a socket that is bound already.
pub const WSAEINVAL: i32 = 10022;

/// The address family of Unix domain sockets.
pub const AF_UNIX: u16 = 1;

/// Aligned storage of an address that the operation owns.
pub enum AddressStorage {
    Inet(Box<[u8; 128]>),
    Unix(Box<[u8; 110]>),
}

/// An address with its length.
pub struct ConnectAddress {
    pub storage: AddressStorage,
    pub len: u32,
}

/// A connect. The address stays with the operation, or with the driver that may
/// still read it, until the connect is over.
pub struct ConnectOp<'a> {
    pub handle: &'a InnerRawHandle,
    pub addr: ConnectAddress,
    /// The extension function is there.
    pub connect_ex: bool,
    /// The socket has a local address.
    pub completion_bound: bool,
    pub completion_token: Option<usize>,
    /// The call that starts the connect was made.
    pub poll_connect_started: bool,
}

/// What polling a connect hears of.
#[derive(Debug, Clone, Copy, PartialEq, Eq)]
pub enum ConnectEvent {
    /// The operation is polled.
    Polled,
    /// The connect call returned.
    Called(Result<(), IoError>),
    /// The pending error of the socket was read.
    SocketError(Result<i32, IoError>),
    /// The peer of the socket was asked for.
    Peer(Result<(), IoError>),
}

/// What polling a connect does next.
#[derive(Debug, Clone, Copy, PartialEq, Eq)]
pub enum ConnectStep {
    /// Call connect with the address of the operation.
    Call,
    /// Read the pending error of the socket.
    ReadSocketError,
    /// Ask for the peer of the socket.
    AskPeer,
    /// Wait until the socket is ready.
    AwaitReadiness(Interest),
    Done(Result<(), IoError>),
}

/// What a completed connect leaves to be done.
#[derive(Debug, Clone, Copy, PartialEq, Eq, Structural)]
pub enum Connected {
    Done,
    /// The socket still has to take over the context of the connection.
    UpdateContext { socket: u64 },
}

/// The code says that a connect goes on.
pub open spec fn in_progress(system: System, code: i32) -> bool {
    code == system.in_progress() || code == system.already() || code == system.would_block()
}

fn is_in_progress(system: System, code: i32) -> (r: bool)
    ensures
        r == in_progress(system, code),
{
    code == system.in_progress() || code == system.already() || code == system.would_block()
}

/// Windows says that a socket is bound already by the error of an invalid
/// argument. An address that is in use, and every other error, is a failure.
pub open spec fn bind_outcome(code: i32) -> Result<(), IoError> {
    if code == WSAEINVAL {
        Ok(())
    } else {
        Err(IoError::Os(System::Windows, code))
    }
}

pub fn connectex_bind_error(code: i32) -> (r: Result<(), IoError>)
    ensures
        r == bind_outcome(code),
{
    if code == WSAEINVAL {
        Ok(())
    } else {
        Err(IoError::Os(System::Windows, code))
    }
}

pub open spec fn length_outcome(len: i64, capacity: usize) -> Result<(), IoError> {
    if len < 0 {
        Err(invalid_input("negative socket address length"))
    } else if !(2 <= len <= capacity) {
        Err(invalid_input("socket address length exceeds owned storage or omits its family"))
    } else {
        Ok(())
    }
}

pub open spec fn not_a_socket() -> IoError {
    invalid_input("ConnectEx can be used only with socket handles")
}

pub open spec fn no_connect_ex() -> IoError {
    IoError::Message(ErrorKind::Unsupported, "ConnectEx extension function is unavailable")
}

/// The error of an address that cannot be connected to, from that of decoding it.
pub open spec fn rejected(error: IoError) -> IoError {
    match error {
        IoError::Message(_, text) => IoError::Message(ErrorKind::InvalidInput, text),
        _ => IoError::Simple(ErrorKind::InvalidInput),
    }
}

/// The storage holds an address.
pub open spec fn decodable(format: AddressFormat, storage: Seq<u8>, length: usize) -> bool {
    exists|address: SocketAddr| #[trigger]
        decodes(format, storage, length, Ok::<SocketAddr, IoError>(address))
}

/// The storage holds no address, for which `error` blames the arguments.
pub open spec fn undecodable(
    format: AddressFormat,
    storage: Seq<u8>,
    length: usize,
    error: IoError,
) -> bool {
    exists|reason: IoError| #[trigger]
        decodes(format, storage, length, Err::<SocketAddr, IoError>(reason)) && error == rejected(
            reason,
        )
}

impl ConnectAddress {
    /// The family that the storage holds.
    pub open spec fn family(self, format: AddressFormat) -> int {
        match self.storage {
            AddressStorage::Inet(bytes) => family_in(bytes@, format),
            AddressStorage::Unix(bytes) => family_in(bytes@, format),
        }
    }

    /// The length covers at least the family and at most the storage.
    pub fn validate_len(len: i64, capacity: usize) -> (r: Result<(), IoError>)
        ensures
            r == length_outcome(len, capacity),
    {
        if len < 0 {
            return Err(
                IoError::Message(ErrorKind::InvalidInput, "negative socket address length"),
            );
        }
        if len < 2 || len as u64 > capacity as u64 {
            return Err(
                IoError::Message(
                    ErrorKind::InvalidInput,
                    "socket address length exceeds owned storage or omits its family",
                ),
            );
        }
        Ok(())
    }

    fn read_family(&self, format: AddressFormat) -> (r: u16)
        ensures
            r == self.family(format),
    {
        match &self.storage {
            AddressStorage::Inet(bytes) => {
                let family: u16 = read_family(bytes[0], bytes[1], format);
                assert(family == family_in(bytes@, format));
                family
            },
            AddressStorage::Unix(bytes) => {
                let family: u16 = read_family(bytes[0], bytes[1], format);
                assert(family == family_in(bytes@, format));
                family
            },
        }
    }
}

impl<'a> ConnectOp<'a> {
    /// A connect to an internet address, which must be complete.
    pub fn new(handle: &'a InnerRawHandle, addr: [u8; 128], len: i64) -> (r: Result<
        ConnectOp<'a>,
        IoError,
    >)
        ensures
            match r {
                Ok(op) => {
                    &&& length_outcome(len, STORAGE_LEN) is Ok
                    &&& decodable(handle.addresses(), addr@, len as usize)
                    &&& op.fresh(handle)
                    &&& op.addr.storage == AddressStorage::Inet(Box::new(addr))
                    &&& op.addr.len == len
                },
                Err(error) => match length_outcome(len, STORAGE_LEN) {
                    Err(reason) => error == reason,
                    Ok(_) => undecodable(handle.addresses(), addr@, len as usize, error),
                },
            },
    {
        match ConnectAddress::validate_len(len, STORAGE_LEN) {
            Ok(_) => {},
            Err(error) => {
                return Err(error);
            },
        }
        match sockaddr_storage_to_socketaddr(handle.addresses(), &addr, len as usize) {
            Ok(address) => {
                assert(decodes(
                    handle.addresses(),
                    addr@,
                    len as usize,
                    Ok::<SocketAddr, IoError>(address),
                ));
            },
            Err(error) => {
                assert(decodes(
                    handle.addresses(),
                    addr@,
                    len as usize,
                    Err::<SocketAddr, IoError>(error),
                ));
                return match error {
                    IoError::Message(_, text) => Err(
                        IoError::Message(ErrorKind::InvalidInput, text),
                    ),
                    _ => Err(IoError::Simple(ErrorKind::InvalidInput)),
                };
            },
        }
        Ok(
            ConnectOp::with_address(
                handle,
                ConnectAddress { storage: AddressStorage::Inet(Box::new(addr)), len: len as u32 },
            ),
        )
    }

    /// A connect to the address of a Unix domain socket. What the address of the
    /// system does not use of the storage lies behind it.
    pub fn new_unix(handle: &'a InnerRawHandle, addr: [u8; 110], len: u32) -> (r: Result<
        ConnectOp<'a>,
        IoError,
    >)
        ensures
            match length_outcome(len as i64, handle.system().unix_len()) {
                Err(reason) => r == Err::<ConnectOp<'a>, IoError>(reason),
                Ok(_) => if family_in(addr@, handle.addresses()) == AF_UNIX {
                    r matches Ok(op) && op.fresh(handle) && op.addr.storage
                        == AddressStorage::Unix(Box::new(addr)) && op.addr.len == len
                } else {
                    r == Err::<ConnectOp<'a>, IoError>(
                        invalid_input("expected Unix socket family"),
                    )
                },
            },
    {
        match ConnectAddress::validate_len(len as i64, handle.system().unix_len()) {
            Ok(_) => {},
            Err(error) => {
                return Err(error);
            },
        }
        let address = ConnectAddress { storage: AddressStorage::Unix(Box::new(addr)), len };
        if address.read_family(handle.addresses()) != AF_UNIX {
            return Err(
                IoError::Message(ErrorKind::InvalidInput, "expected Unix socket family"),
            );
        }
        Ok(ConnectOp::with_address(handle, address))
    }

    /// Nothing has been done for the connect yet.
    pub open spec fn fresh(self, handle: &InnerRawHandle) -> bool {
        &&& self.handle == handle
        &&& !self.connect_ex
        &&& !self.completion_bound
        &&& self.completion_token is None
        &&& !self.poll_connect_started
    }

    fn with_address(handle: &'a InnerRawHandle, addr: ConnectAddress) -> (r: Self)
        ensures
            r.fresh(handle),
            r.addr == addr,
    {
        ConnectOp {
            handle,
            addr,
            connect_ex: false,
            completion_bound: false,
            completion_token: None,
            poll_connect_started: false,
        }
    }

    /// Give the operation up. One that is with its driver leaves the allocation
    /// of its address there, since the kernel may still read it.
    pub fn cancel(self) -> (r: Option<Cancelled<ConnectAddress>>)
        ensures
            r == match self.completion_token {
                Some(token) => Some(
                    Cancelled { driver: self.handle.driver, token, storage: self.addr },
                ),
                None => None,
            },
    {
        match self.completion_token {
            Some(token) => Some(
                Cancelled { driver: self.handle.driver, token, storage: self.addr },
            ),
            None => None,
        }
    }

    /// Poll the connect step by step. It is started once; each poll then reads
    /// the pending error of the socket and asks for its peer, and the connect is
    /// done only when there is none of the first and one of the second.
    pub fn poll_poll(&mut self, event: ConnectEvent) -> (r: ConnectStep)
        ensures
            r == connect_step(
                *old(self).handle,
                old(self).poll_connect_started,
                event,
            ),
            final(self).poll_connect_started == (old(self).poll_connect_started || (event is Called
                && r is ReadSocketError)),
            final(self).handle == old(self).handle,
            final(self).addr == old(self).addr,
            final(self).connect_ex == old(self).connect_ex,
            final(self).completion_bound == old(self).completion_bound,
            final(self).completion_token == old(self).completion_token,
    {
        let system = self.handle.system();
        match event {
            ConnectEvent::Polled => {
                if let RawOsHandle::Handle(_) = self.handle.handle {
                    return ConnectStep::Done(
                        Err(IoError::Message(ErrorKind::InvalidInput, "invalid raw handle")),
                    );
                }
                if self.poll_connect_started {
                    ConnectStep::ReadSocketError
                } else {
                    ConnectStep::Call
                }
            },
            ConnectEvent::Called(result) => {
                if let Err(error) = result {
                    let goes_on: bool = match error.raw_os_error() {
                        Some(code) => is_in_progress(system, code),
                        None => false,
                    };
                    if !goes_on {
                        return ConnectStep::Done(Err(error));
                    }
                }
                self.poll_connect_started = true;
                ConnectStep::ReadSocketError
            },
            ConnectEvent::SocketError(result) => match result {
                Err(error) => {
                    if error.is_would_block() {
                        ConnectStep::AwaitReadiness(Interest::Writable)
                    } else {
                        ConnectStep::Done(Err(error))
                    }
                },
                Ok(code) => {
                    if code == 0 {
                        ConnectStep::AskPeer
                    } else if is_in_progress(system, code) {
                        ConnectStep::AwaitReadiness(Interest::Writable)
                    } else {
                        ConnectStep::Done(Err(IoError::Os(system, code)))
                    }
                },
            },
            ConnectEvent::Peer(result) => match result {
                Ok(_) => ConnectStep::Done(Ok(())),
                Err(error) => {
                    let goes_on: bool = match error.raw_os_error() {
                        Some(code) => is_in_progress(system, code) || code
                            == system.not_connected(),
                        None => false,
                    };
                    if goes_on {
                        ConnectStep::AwaitReadiness(Interest::Writable)
                    } else {
                        ConnectStep::Done(Err(error))
                    }
                },
            },
        }
    }

    /// Take in whether the socket got a local address; `error` is the code of a
    /// bind that failed.
    pub fn bound(&mut self, error: Option<i32>) -> (r: Result<(), IoError>)
        ensures
            r == match error {
                Some(code) => bind_outcome(code),
                None => Ok::<(), IoError>(()),
            },
            final(self).completion_bound == (old(self).completion_bound || r is Ok),
            final(self).handle == old(self).handle,
            final(self).addr == old(self).addr,
            final(self).connect_ex == old(self).connect_ex,
            final(self).completion_token == old(self).completion_token,
            final(self).poll_connect_started == old(self).poll_connect_started,
    {
        let outcome = match error {
            Some(code) => connectex_bind_error(code),
            None => Ok(()),
        };
        if outcome.is_ok() {
            self.completion_bound = true;
        }
        outcome
    }

    /// Take in whether the extension function was found.
    pub fn extension_loaded(&mut self, found: Result<bool, IoError>) -> (r: Result<(), IoError>)
        ensures
            r == match found {
                Ok(true) => Ok::<(), IoError>(()),
                Ok(false) => Err(no_connect_ex()),
                Err(error) => Err(error),
            },
            final(self).connect_ex == (old(self).connect_ex || r is Ok),
            final(self).handle == old(self).handle,
            final(self).addr == old(self).addr,
            final(self).completion_bound == old(self).completion_bound,
            final(self).completion_token == old(self).completion_token,
            final(self).poll_connect_started == old(self).poll_connect_started,
    {
        match found {
            Ok(available) => {
                if available {
                    self.connect_ex = true;
                    Ok(())
                } else {
                    Err(
                        IoError::Message(
                            ErrorKind::Unsupported,
                            "ConnectEx extension function is unavailable",
                        ),
                    )
                }
            },
            Err(error) => Err(error),
        }
    }
}

/// What a polled connect does next.
pub open spec fn connect_step(
    handle: InnerRawHandle,
    started: bool,
    event: ConnectEvent,
) -> ConnectStep {
    let system = handle.system();
    match event {
        ConnectEvent::Polled => if handle.handle is Handle {
            ConnectStep::Done(Err(invalid_input("invalid raw handle")))
        } else if started {
            ConnectStep::ReadSocketError
        } else {
            ConnectStep::Call
        },
        ConnectEvent::Called(Ok(_)) => ConnectStep::ReadSocketError,
        ConnectEvent::Called(Err(error)) => match error.code() {
            Some(code) if in_progress(system, code) => ConnectStep::ReadSocketError,
            _ => ConnectStep::Done(Err(error)),
        },
        ConnectEvent::SocketError(Ok(code)) => if code == 0 {
            ConnectStep::AskPeer
        } else if in_progress(system, code) {
            ConnectStep::AwaitReadiness(Interest::Writable)
        } else {
            ConnectStep::Done(Err(IoError::Os(system, code)))
        },
        ConnectEvent::SocketError(Err(error)) => if error.would_block() {
            ConnectStep::AwaitReadiness(Interest::Writable)
        } else {
            ConnectStep::Done(Err(error))
        },
        ConnectEvent::Peer(Ok(_)) => ConnectStep::Done(Ok(())),
        ConnectEvent::Peer(Err(error)) => match error.code() {
            Some(code) if in_progress(system, code) || code == system.not_connected() =>
                ConnectStep::AwaitReadiness(Interest::Writable),
            _ => ConnectStep::Done(Err(error)),
        },
    }
}

/// A polled connect succeeds only once the socket has a peer.
pub proof fn connected_only_with_a_peer(handle: InnerRawHandle, started: bool, event: ConnectEvent)
    ensures
        (connect_step(handle, started, event) matches ConnectStep::Done(Ok(_))) <==> (event
            matches ConnectEvent::Peer(Ok(_))),
{
}

impl<'a> Op for ConnectOp<'a> {
    type Output = Connected;

    open spec fn token(&self) -> Option<usize> {
        self.completion_token
    }

    open spec fn admits(&self, result: i32) -> bool {
        true
    }

    fn completion_token(&self) -> (r: Option<usize>) {
        self.completion_token
    }

    fn poll_completion(&mut self, reply: Reply) -> (r: Poll<Result<Connected, IoError>>)
        ensures
            r == match reply.settled() {
                Settled::Pending => Poll::Pending,
                Settled::Refused(error) => Poll::Ready(Err::<Connected, IoError>(error)),
                Settled::Result(result) => Poll::Ready(
                    if result < 0 {
                        Err(crate::error::completion_error_spec(old(self).handle.system(), result))
                    } else {
                        match old(self).handle.handle {
                            RawOsHandle::Fd(_) => Ok(Connected::Done),
                            RawOsHandle::Socket(socket) => Ok(Connected::UpdateContext { socket }),
                            RawOsHandle::Handle(_) => Err(not_a_socket()),
                        }
                    },
                ),
            },
            final(self).completion_token == reply.token_after(old(self).completion_token),
            final(self).handle == old(self).handle,
            final(self).addr == old(self).addr,
            final(self).connect_ex == old(self).connect_ex,
            final(self).completion_bound == old(self).completion_bound,
            final(self).poll_connect_started == old(self).poll_connect_started,
    {
        let result: i32 = match settle(&mut self.completion_token, reply) {
            Settled::Pending => {
                return Poll::Pending;
            },
            Settled::Refused(error) => {
                return Poll::Ready(Err(error));
            },
            Settled::Result(result) => result,
        };
        if result < 0 {
            return Poll::Ready(Err(crate::error::completion_error(self.handle.system(), result)));
        }
        match self.handle.handle {
            RawOsHandle::Fd(_) => Poll::Ready(Ok(Connected::Done)),
            RawOsHandle::Socket(socket) => Poll::Ready(Ok(Connected::UpdateContext { socket })),
            RawOsHandle::Handle(_) => Poll::Ready(
                Err(
                    IoError::Message(
                        ErrorKind::InvalidInput,
                        "ConnectEx can be used only with socket handles",
                    ),
                ),
            ),
        }
    }

    fn build_completion_entry(&mut self, user_data: u64) -> (r: Result<CompletionEntry, IoError>)
        ensures
            r == match old(self).handle.handle {
                RawOsHandle::Fd(fd) => Ok::<CompletionEntry, IoError>(
                    CompletionEntry {
                        fd,
                        opcode: Opcode::Connect { address_len: old(self).addr.len },
                        user_data,
                    },
                ),
                _ => Err(no_completion()),
            },
            *final(self) == *old(self),
    {
        match self.handle.handle {
            RawOsHandle::Fd(fd) => Ok(
                CompletionEntry {
                    fd,
                    opcode: Opcode::Connect { address_len: self.addr.len },
                    user_data,
                },
            ),
            _ => Err(completion_unsupported()),
        }
    }

    /// The socket is bound to the unspecified address of its family and the
    /// extension function is looked up first, each once.
    fn submit_windows(&mut self) -> (r: Result<WindowsCall, IoError>)
        ensures
            r == match old(self).handle.handle {
                RawOsHandle::Socket(socket) => {
                    let addresses = old(self).handle.addresses();
                    let family = old(self).addr.family(addresses);
                    if !old(self).completion_bound {
                        if family == AF_INET || family == addresses.system.inet6() {
                            Ok::<WindowsCall, IoError>(
                                WindowsCall::BindUnspecified { socket, family: family as u16 },
                            )
                        } else {
                            Err(invalid_input("unsupported socket family for ConnectEx"))
                        }
                    } else if !old(self).connect_ex {
                        Ok(WindowsCall::LoadConnectEx { socket })
                    } else {
                        Ok(WindowsCall::ConnectEx { socket, address_len: old(self).addr.len })
                    }
                },
                RawOsHandle::Handle(_) => Err(not_a_socket()),
                RawOsHandle::Fd(_) => Err(no_completion()),
            },
            *final(self) == *old(self),
    {
        let socket: u64 = match self.handle.handle {
            RawOsHandle::Socket(socket) => socket,
            RawOsHandle::Handle(_) => {
                return Err(
                    IoError::Message(
                        ErrorKind::InvalidInput,
                        "ConnectEx can be used only with socket handles",
                    ),
                );
            },
            RawOsHandle::Fd(_) => {
                return Err(completion_unsupported());
            },
        };
        if !self.completion_bound {
            let family: u16 = self.addr.read_family(self.handle.addresses());
            if family == AF_INET || family == self.handle.addresses().system.inet6() {
                return Ok(WindowsCall::BindUnspecified { socket, family });
            }
            return Err(
                IoError::Message(
                    ErrorKind::InvalidInput,
                    "unsupported socket family for ConnectEx",
                ),
            );
        }
        if !self.connect_ex {
            return Ok(WindowsCall::LoadConnectEx { socket });
        }
        Ok(WindowsCall::ConnectEx { socket, address_len: self.addr.len })
    }
}

/// A polled connect is called once, then reads the error of its socket and asks for its
/// peer. It succeeds exactly when it has a peer. It fails only with an error that it was
/// told of, or by a handle that is no socket: a call that succeeded, or that goes on, never
/// ends it.
pub proof fn polled_connects_end_with_what_they_are_told<'a>(
    before: ConnectOp<'a>,
    after: ConnectOp<'a>,
    event: ConnectEvent,
    r: ConnectStep,
)
    requires
        exists|op: &mut ConnectOp<'a>|
            *op == before && *final(op) == after && #[trigger] call_ensures(
                ConnectOp::<'a>::poll_poll,
                (op, event),
                r,
            ),
    ensures
        event is Polled ==> match before.handle.handle {
            RawOsHandle::Handle(_) => r matches ConnectStep::Done(Err(error)) && (error matches
                IoError::Message(kind, _) && kind is InvalidInput),
            _ => if before.poll_connect_started {
                r is ReadSocketError
            } else {
                r is Call
            },
        },
        (event matches ConnectEvent::Called(Ok(_))) ==> r is ReadSocketError
            && after.poll_connect_started,
        event matches ConnectEvent::Called(Err(error))
            ==> if error matches IoError::Os(_, code) && match before.handle.system() {
            System::Linux => code == 115 || code == 114 || code == 11,
            System::Macos => code == 36 || code == 37 || code == 35,
            System::Windows => code == 10036 || code == 10037 || code == 10035,
        } {
            r is ReadSocketError && after.poll_connect_started
        } else {
            r == ConnectStep::Done(Err::<(), IoError>(error)) && after.poll_connect_started
                == before.poll_connect_started
        },
        event == ConnectEvent::SocketError(Ok(0)) ==> r is AskPeer,
        event matches ConnectEvent::SocketError(Ok(code)) ==> code != 0
            ==> if match before.handle.system() {
            System::Linux => code == 115 || code == 114 || code == 11,
            System::Macos => code == 36 || code == 37 || code == 35,
            System::Windows => code == 10036 || code == 10037 || code == 10035,
        } {
            r == ConnectStep::AwaitReadiness(Interest::Writable)
        } else {
            r == ConnectStep::Done(Err::<(), IoError>(IoError::Os(before.handle.system(), code)))
        },
        event matches ConnectEvent::SocketError(Err(error)) ==> if error.would_block() {
            r == ConnectStep::AwaitReadiness(Interest::Writable)
        } else {
            r == ConnectStep::Done(Err::<(), IoError>(error))
        },
        (r matches ConnectStep::Done(Ok(_))) <==> (event matches ConnectEvent::Peer(Ok(_))),
        event matches ConnectEvent::Peer(Err(error)) ==> if error matches IoError::Os(_, code)
            && (code
            == match before.handle.system() {
            System::Linux => 107i32,
            System::Macos => 57i32,
            System::Windows => 10057i32,
        } || match before.handle.system() {
            System::Linux => code == 115 || code == 114 || code == 11,
            System::Macos => code == 36 || code == 37 || code == 35,
            System::Windows => code == 10036 || code == 10037 || code == 10035,
        }) {
            r == ConnectStep::AwaitReadiness(Interest::Writable)
        } else {
            r == ConnectStep::Done(Err::<(), IoError>(error))
        },
        !(event is Called) ==> after.poll_connect_started == before.poll_connect_started,
        before.poll_connect_started ==> after.poll_connect_started,
        after.handle == before.handle && after.addr == before.addr && after.connect_ex
            == before.connect_ex && after.completion_bound == before.completion_bound
            && after.completion_token == before.completion_token,
{
}

/// A connect whose call succeeded at once, whose socket has no error and whose peer is
/// there succeeds, however it is polled in between; its call is not made again.
pub proof fn connects_that_succeed_say_so<'a>(
    a: ConnectOp<'a>,
    b: ConnectOp<'a>,
    c: ConnectOp<'a>,
    d: ConnectOp<'a>,
    e: ConnectOp<'a>,
    called: ConnectStep,
    polled: ConnectStep,
    read: ConnectStep,
    asked: ConnectStep,
)
    requires
        !(a.handle.handle is Handle),
        exists|op: &mut ConnectOp<'a>|
            *op == a && *final(op) == b && #[trigger] call_ensures(
                ConnectOp::<'a>::poll_poll,
                (op, ConnectEvent::Called(Ok(()))),
                called,
            ),
        exists|op: &mut ConnectOp<'a>|
            *op == b && *final(op) == c && #[trigger] call_ensures(
                ConnectOp::<'a>::poll_poll,
                (op, ConnectEvent::Polled),
                polled,
            ),
        exists|op: &mut ConnectOp<'a>|
            *op == c && *final(op) == d && #[trigger] call_ensures(
                ConnectOp::<'a>::poll_poll,
                (op, ConnectEvent::SocketError(Ok(0))),
                read,
            ),
        exists|op: &mut ConnectOp<'a>|
            *op == d && *final(op) == e && #[trigger] call_ensures(
                ConnectOp::<'a>::poll_poll,
                (op, ConnectEvent::Peer(Ok(()))),
                asked,
            ),
    ensures
        called is ReadSocketError && polled is ReadSocketError && read is AskPeer,
        asked == ConnectStep::Done(Ok::<(), IoError>(())),
{
}

/// A connect is made for an address that decodes, in all of its length, and for none
/// else; it holds that address byte for byte.
pub proof fn connects_hold_their_address<'a>(
    handle: &'a InnerRawHandle,
    addr: [u8; 128],
    len: i64,
    r: Result<ConnectOp<'a>, IoError>,
    decoded: Result<SocketAddr, IoError>,
)
    requires
        call_ensures(ConnectOp::<'a>::new, (handle, addr, len), r),
        0 <= len ==> call_ensures(
            sockaddr_storage_to_socketaddr,
            (handle.addresses(), &addr, len as usize),
            decoded,
        ),
    ensures
        r is Ok <==> 2 <= len <= 128 && decoded is Ok,
        r matches Ok(op) ==> {
            &&& op.handle == handle
            &&& op.addr.storage matches AddressStorage::Inet(bytes) && *bytes == addr
            &&& op.addr.len == len
            &&& !op.poll_connect_started && !op.connect_ex && !op.completion_bound
            &&& op.completion_token is None
        },
        r matches Err(error) ==> match error {
            IoError::Message(kind, _) => kind is InvalidInput,
            IoError::Simple(kind) => kind is InvalidInput,
            IoError::Os(_, _) => false,
        },
{
    if 2 <= len <= 128 {
        match r {
            Ok(op) => {
                let address = choose|address: SocketAddr| #[trigger]
                    decodes(
                        handle.addresses(),
                        addr@,
                        len as usize,
                        Ok::<SocketAddr, IoError>(address),
                    );
                crate::op::socket_addr::decodings_are_unique(
                    handle.addresses(),
                    addr,
                    len as usize,
                    Ok(address),
                    decoded,
                );
            },
            Err(error) => {
                let reason = choose|reason: IoError| #[trigger]
                    decodes(
                        handle.addresses(),
                        addr@,
                        len as usize,
                        Err::<SocketAddr, IoError>(reason),
                    ) && error == rejected(reason);
                crate::op::socket_addr::decodings_are_unique(
                    handle.addresses(),
                    addr,
                    len as usize,
                    Err(reason),
                    decoded,
                );
            },
        }
    }
}

/// A connect to a Unix domain socket is made for an address of that family, whose length
/// covers the family and lies in what the system has for one.
pub proof fn unix_connects_hold_their_address<'a>(
    handle: &'a InnerRawHandle,
    addr: [u8; 110],
    len: u32,
    r: Result<ConnectOp<'a>, IoError>,
)
    requires
        call_ensures(ConnectOp::<'a>::new_unix, (handle, addr, len), r),
    ensures
        r is Ok <==> 2 <= len <= (if handle.system() is Macos {
            106int
        } else {
            110
        }) && match (handle.system(), handle.big_endian) {
            (System::Macos, _) => addr@[1] == 1,
            (_, true) => addr@[0] == 0 && addr@[1] == 1,
            (_, false) => addr@[0] == 1 && addr@[1] == 0,
        },
        r matches Ok(op) ==> {
            &&& op.handle == handle
            &&& op.addr.storage matches AddressStorage::Unix(bytes) && *bytes == addr
            &&& op.addr.len == len
            &&& !op.poll_connect_started && !op.connect_ex && !op.completion_bound
            &&& op.completion_token is None
        },
        r matches Err(error) ==> (error matches IoError::Message(kind, _) && kind is InvalidInput),
{
}

/// A completed connect succeeds where its result is no code; on Windows its socket still
/// has to take over the context.
pub proof fn completed_connects_say_how_they_ended<'a>(
    before: ConnectOp<'a>,
    after: ConnectOp<'a>,
    reply: Reply,
    r: Poll<Result<Connected, IoError>>,
    result: i32,
    token: usize,
    error: IoError,
)
    requires
        exists|op: &mut ConnectOp<'a>|
            *op == before && *final(op) == after && #[trigger] call_ensures(
                <ConnectOp<'a> as Op>::poll_completion,
                (op, reply),
                r,
            ),
    ensures
        (reply == Reply::Submitted(CompletionIoResult::Completed(result)) || reply
            == Reply::Collected(
            Some(result),
        )) ==> after.completion_token is None && (result >= 0 ==> match before.handle.handle {
            RawOsHandle::Fd(_) => r == Poll::Ready(Ok::<Connected, IoError>(Connected::Done)),
            RawOsHandle::Socket(socket) => r == Poll::Ready(
                Ok::<Connected, IoError>(Connected::UpdateContext { socket }),
            ),
            RawOsHandle::Handle(_) => r matches Poll::Ready(Err(_)),
        }) && (result < 0 ==> (r matches Poll::Ready(Err(_)))),
        (reply == Reply::Submitted(CompletionIoResult::Completed(result)) || reply
            == Reply::Collected(
            Some(result),
        )) && i32::MIN < result < 0 ==> (r matches Poll::Ready(
            Err(IoError::Os(own, code)),
        ) && own == before.handle.system() && code == -result),
        reply == Reply::Submitted(CompletionIoResult::Retry(token)) ==> r is Pending
            && after.completion_token == Some(token),
        reply == Reply::Submitted(CompletionIoResult::SubmitErr(error))
            ==> after.completion_token is None
            && r == Poll::Ready(Err::<Connected, IoError>(error)),
        reply == Reply::Collected(None) ==> r is Pending && after.completion_token
            == before.completion_token,
        after.handle == before.handle && after.addr == before.addr && after.connect_ex
            == before.connect_ex && after.completion_bound == before.completion_bound
            && after.poll_connect_started == before.poll_connect_started,
{
}

/// A connect names the length of the address that it holds.
pub proof fn connects_name_the_length_of_their_address<'a>(
    before: ConnectOp<'a>,
    after: ConnectOp<'a>,
    user_data: u64,
    r: Result<CompletionEntry, IoError>,
)
    requires
        exists|op: &mut ConnectOp<'a>|
            *op == before && *final(op) == after && #[trigger] call_ensures(
                <ConnectOp<'a> as Op>::build_completion_entry,
                (op, user_data),
                r,
            ),
    ensures
        r matches Ok(entry) ==> {
            &&& before.handle.handle == RawOsHandle::Fd(entry.fd)
            &&& entry.user_data == user_data
            &&& entry.opcode == (Opcode::Connect { address_len: before.addr.len })
        },
        r is Ok <==> before.handle.handle is Fd,
        after == before,
{
}

/// On Windows a socket is bound to the unspecified address of its family and the
/// extension function is looked up, each once, before the call is made with the length of
/// the address.
pub proof fn windows_connects_bind_and_load_first<'a>(
    before: ConnectOp<'a>,
    after: ConnectOp<'a>,
    r: Result<WindowsCall, IoError>,
)
    requires
        exists|op: &mut ConnectOp<'a>|
            *op == before && *final(op) == after && #[trigger] call_ensures(
                <ConnectOp<'a> as Op>::submit_windows,
                (op,),
                r,
            ),
    ensures
        before.handle.handle matches RawOsHandle::Socket(socket) ==> {
            let bytes = match before.addr.storage {
                AddressStorage::Inet(bytes) => bytes@,
                AddressStorage::Unix(bytes) => bytes@,
            };
            let own = if before.handle.big_endian {
                bytes[0] * 256 + bytes[1]
            } else {
                bytes[0] + bytes[1] * 256
            };
            if !before.completion_bound {
                if own == 2 || own == 23 {
                    r matches Ok(WindowsCall::BindUnspecified { socket: bound, family }) && bound
                        == socket && family == own
                } else {
                    r is Err
                }
            } else if !before.connect_ex {
                r == Ok::<WindowsCall, IoError>(WindowsCall::LoadConnectEx { socket })
            } else {
                r == Ok::<WindowsCall, IoError>(
                    WindowsCall::ConnectEx { socket, address_len: before.addr.len },
                )
            }
        },
        !(before.handle.handle is Socket) ==> r is Err,
        after == before,
{
}

/// A socket that is bound already, which code 10022 says, is bound; every other code of a
/// bind is a failure, and leaves it unbound.
pub proof fn only_bound_sockets_are_bound<'a>(
    before: ConnectOp<'a>,
    after: ConnectOp<'a>,
    error: Option<i32>,
    r: Result<(), IoError>,
    code: i32,
    direct: Result<(), IoError>,
)
    requires
        exists|op: &mut ConnectOp<'a>|
            *op == before && *final(op) == after && #[trigger] call_ensures(
                ConnectOp::<'a>::bound,
                (op, error),
                r,
            ),
        call_ensures(connectex_bind_error, (code,), direct),
    ensures
        r is Ok <==> error is None || error == Some(10022i32),
        r matches Err(own) ==> (own matches IoError::Os(system, number) && system is Windows
            && error
            == Some(number)),
        direct is Ok <==> code == 10022,
        direct matches Err(own) ==> own == IoError::Os(System::Windows, code),
        after.completion_bound <==> before.completion_bound || r is Ok,
        after.addr == before.addr && after.handle == before.handle && after.connect_ex
            == before.connect_ex && after.completion_token == before.completion_token
            && after.poll_connect_started == before.poll_connect_started,
{
}

/// The extension function is there once it was found; not finding it is an error.
pub proof fn connect_extensions_are_found_or_missing<'a>(
    before: ConnectOp<'a>,
    after: ConnectOp<'a>,
    found: Result<bool, IoError>,
    r: Result<(), IoError>,
)
    requires
        exists|op: &mut ConnectOp<'a>|
            *op == before && *final(op) == after && #[trigger] call_ensures(
                ConnectOp::<'a>::extension_loaded,
                (op, found),
                r,
            ),
    ensures
        r is Ok <==> found == Ok::<bool, IoError>(true),
        found matches Err(error) ==> r == Err::<(), IoError>(error),
        found == Ok::<bool, IoError>(false) ==> (r matches Err(error)
            && (error matches IoError::Message(
            kind,
            _,
        ) && kind is Unsupported)),
        after.connect_ex <==> before.connect_ex || r is Ok,
        after.addr == before.addr && after.handle == before.handle && after.completion_bound
            == before.completion_bound && after.completion_token == before.completion_token
            && after.poll_connect_started == before.poll_connect_started,
{
}

/// A length is right exactly where it covers a family and lies in the storage.
pub proof fn connect_lengths_are_bounded(
    len: i64,
    capacity: usize,
    r: Result<(), IoError>,
)
    requires
        call_ensures(ConnectAddress::validate_len, (len, capacity), r),
    ensures
        r is Ok <==> 2 <= len && len <= capacity,
        r matches Err(error) ==> (error matches IoError::Message(kind, _) && kind is InvalidInput),
{
}

/// A connect that is with its driver leaves its address there.
pub proof fn cancelled_connects_leave_their_address<'a>(
    op: ConnectOp<'a>,
    r: Option<Cancelled<ConnectAddress>>,
)
    requires
        call_ensures(ConnectOp::<'a>::cancel, (op,), r),
    ensures
        r is Some <==> op.completion_token is Some,
        r matches Some(left) ==> op.completion_token == Some(left.token) && left.driver
            == op.handle.driver && left.storage == op.addr,
{
}

/// A connect asks for the result under its token exactly while it has one.
pub proof fn connects_ask_under_their_token<'a>(
    op: ConnectOp<'a>,
    token: Option<usize>,
    request: Request,
)
    requires
        call_ensures(<ConnectOp<'a> as Op>::completion_token, (&op,), token),
        call_ensures(<ConnectOp<'a> as Op>::request, (&op,), request),
    ensures
        token == op.completion_token && op.token() == op.completion_token,
        request is Submit <==> op.completion_token is None,
        request matches Request::Collect(own) ==> op.completion_token == Some(own),
{
}

} // verus!
