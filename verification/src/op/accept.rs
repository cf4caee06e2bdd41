//! Accepting connections with the address of the peer.

use vstd::prelude::*;

use crate::error::{ErrorKind, IoError};
use crate::handle::{InnerRawHandle, RawOsHandle};
use crate::op::accept_unix::{accept_flags, accept_result, accepted_fd, ACCEPT_FLAGS};
use crate::op::io_util::invalid_input;
use crate::op::socket_addr::{
    bad_length, decodes, inside, outside_buffer, padded, sockaddr_storage_to_socketaddr,
    socketaddr_from_buffer, AddressFormat, SocketAddr, AF_INET, STORAGE_LEN,
};
use crate::op::{
    completion_unsupported, no_completion, overlapped_spec, overlapped_started, settle, Cancelled,
    CompletionEntry, CompletionIoResult, Op, Opcode, Reply, Request, Settled, SystemCall,
    WindowsCall,
};
use crate::poll::{attempt_spec, poll_result_or_wait, Attempt, Interest, Poll};
use crate::system::System;

verus! {

/// Room that `AcceptEx` wants for one address.
pub const ACCEPTEX_ADDR_LEN: usize = 144;

/// Room for the local and the remote address.
pub const ACCEPTEX_OUTPUT_BUFFER_LEN: usize = 288;

/// An accept. `S` is a socket that is closed when it is dropped: on Windows it is
/// made before the accept and handed out with the connection.
pub struct AcceptOp<'a, S> {
    pub handle: &'a InnerRawHandle,
    /// The extension function is there.
    pub accept_ex: bool,
    /// The extension function is there.
    pub get_accept_ex_sockaddrs: bool,
    pub accept_socket: Option<S>,
    pub bytes_received: Option<Box<u32>>,
    pub accept_output_buffer: Option<Vec<u8>>,
    pub completion_token: Option<usize>,
}

/// Storage that a pending accept leaves with its driver.
pub struct AcceptStorage<S> {
    pub accept_socket: Option<S>,
    pub accept_output_buffer: Option<Vec<u8>>,
    pub bytes_received: Option<Box<u32>>,
}

/// A connection that was accepted: the number of a new descriptor, or the socket
/// that was made for it.
pub enum Accepted<S> {
    Descriptor(i32),
    Socket(S),
}

/// An extension function that is looked up before it is called.
#[derive(Debug, Clone, Copy, PartialEq, Eq, Structural)]
pub enum AcceptExtension {
    AcceptEx,
    GetAcceptExSockaddrs,
}

pub open spec fn no_accept_ex() -> IoError {
    IoError::Message(ErrorKind::Unsupported, "AcceptEx extension function is unavailable")
}

pub open spec fn no_sockaddrs() -> IoError {
    IoError::Message(
        ErrorKind::Unsupported,
        "GetAcceptExSockaddrs extension function is unavailable",
    )
}

pub open spec fn not_a_listener() -> IoError {
    invalid_input("AcceptEx can be used only with listening sockets")
}

pub open spec fn no_accepted_socket() -> IoError {
    IoError::Message(ErrorKind::Other, "AcceptEx completion missing accepted socket")
}

pub open spec fn no_peer_address() -> IoError {
    IoError::Message(ErrorKind::Other, "AcceptEx completion missing peer address")
}

/// The address family of a listener, from the address that it is bound to.
pub fn listener_socket_family(format: AddressFormat, storage: &[u8; 128], length: usize) -> (r:
    Result<u16, IoError>)
    ensures
        match r {
            Ok(family) => exists|address: SocketAddr| #[trigger]
                decodes(format, storage@, length, Ok::<SocketAddr, IoError>(address)) && family
                    == if address is V4 {
                    AF_INET
                } else {
                    format.system.inet6()
                },
            Err(error) => decodes(format, storage@, length, Err::<SocketAddr, IoError>(error)),
        },
{
    match sockaddr_storage_to_socketaddr(format, storage, length) {
        Ok(address) => {
            assert(decodes(format, storage@, length, Ok::<SocketAddr, IoError>(address)));
            match address {
                SocketAddr::V4 { ip: _, port: _ } => Ok(AF_INET),
                SocketAddr::V6 { ip: _, port: _, flowinfo: _, scope_id: _ } => Ok(format.system.inet6()),
            }
        },
        Err(error) => Err(error),
    }
}

/// Finish an accept with the address of the peer. A connection whose peer cannot
/// be told is given up, and its socket closed.
pub fn finish_accept<S>(
    format: AddressFormat,
    owned: S,
    peer: Result<([u8; 128], usize), IoError>,
) -> (r: Result<(S, SocketAddr), IoError>)
    ensures
        match (peer, r) {
            (Err(error), _) => r == Err::<(S, SocketAddr), IoError>(error),
            (Ok((storage, length)), Ok((socket, address))) => socket == owned && decodes(
                format,
                storage@,
                length,
                Ok::<SocketAddr, IoError>(address),
            ),
            (Ok((storage, length)), Err(error)) => decodes(
                format,
                storage@,
                length,
                Err::<SocketAddr, IoError>(error),
            ),
        },
{
    match peer {
        Ok((storage, length)) => match sockaddr_storage_to_socketaddr(format, &storage, length) {
            Ok(address) => Ok((owned, address)),
            Err(error) => Err(error),
        },
        Err(error) => Err(error),
    }
}

/// Finish an accept on a Unix system: `flags` is the outcome of marking the
/// descriptor to be closed on exec, where the accept did not do so itself.
pub fn finish_unix_accept<S>(
    format: AddressFormat,
    owned: S,
    flags: Result<(), IoError>,
    peer: Result<([u8; 128], usize), IoError>,
) -> (r: Result<(S, SocketAddr), IoError>)
    ensures
        match (flags, peer, r) {
            (Err(error), _, _) => r == Err::<(S, SocketAddr), IoError>(error),
            (_, Err(error), _) => r == Err::<(S, SocketAddr), IoError>(error),
            (_, Ok((storage, length)), Ok((socket, address))) => socket == owned && decodes(
                format,
                storage@,
                length,
                Ok::<SocketAddr, IoError>(address),
            ),
            (_, Ok((storage, length)), Err(error)) => decodes(
                format,
                storage@,
                length,
                Err::<SocketAddr, IoError>(error),
            ),
        },
{
    match flags {
        Ok(_) => finish_accept(format, owned, peer),
        Err(error) => Err(error),
    }
}

impl<'a, S> AcceptOp<'a, S> {
    pub fn new(handle: &'a InnerRawHandle) -> (r: Self)
        ensures
            r.handle == handle,
            !r.accept_ex,
            !r.get_accept_ex_sockaddrs,
            r.accept_socket is None,
            r.bytes_received is None,
            r.accept_output_buffer is None,
            r.completion_token is None,
    {
        AcceptOp {
            handle,
            accept_ex: false,
            get_accept_ex_sockaddrs: false,
            accept_socket: None,
            bytes_received: None,
            accept_output_buffer: None,
            completion_token: None,
        }
    }

    /// Give the operation up. One that is with its driver leaves its storage, and
    /// the socket that was made for the connection, there.
    pub fn cancel(self) -> (r: Option<Cancelled<AcceptStorage<S>>>)
        ensures
            r == match self.completion_token {
                Some(token) => Some(
                    Cancelled {
                        driver: self.handle.driver,
                        token,
                        storage: AcceptStorage {
                            accept_socket: self.accept_socket,
                            accept_output_buffer: self.accept_output_buffer,
                            bytes_received: self.bytes_received,
                        },
                    },
                ),
                None => None,
            },
    {
        match self.completion_token {
            Some(token) => Some(
                Cancelled {
                    driver: self.handle.driver,
                    token,
                    storage: AcceptStorage {
                        accept_socket: self.accept_socket,
                        accept_output_buffer: self.accept_output_buffer,
                        bytes_received: self.bytes_received,
                    },
                },
            ),
            None => None,
        }
    }

    /// Take in the result of the call: a socket, or a reason to wait or to fail.
    pub fn poll_poll(&mut self, result: Result<S, IoError>) -> (r: Attempt<S>)
        ensures
            r == attempt_spec(result, Interest::Readable),
            *final(self) == *old(self),
    {
        poll_result_or_wait(result, Interest::Readable)
    }

    /// Take in what the driver's multishot accept on the listener says. It serves
    /// every accept of the handle, so the operation itself is never queued.
    pub fn poll_multishot(&mut self, outcome: Poll<Result<i32, IoError>>) -> (r: Poll<
        Result<i32, IoError>,
    >)
        ensures
            r == match outcome {
                Poll::Ready(Ok(result)) => Poll::Ready(accepted_fd(old(self).handle.system(), result)),
                _ => outcome,
            },
            *final(self) == *old(self),
    {
        match outcome {
            Poll::Ready(Ok(result)) => Poll::Ready(accept_result(self.handle.system(), result)),
            Poll::Ready(Err(error)) => Poll::Ready(Err(error)),
            Poll::Pending => Poll::Pending,
        }
    }

    /// Take in whether an extension function was found.
    pub fn extension_loaded(
        &mut self,
        extension: AcceptExtension,
        found: Result<bool, IoError>,
    ) -> (r: Result<(), IoError>)
        ensures
            r == match found {
                Ok(true) => Ok::<(), IoError>(()),
                Ok(false) => Err(
                    match extension {
                        AcceptExtension::AcceptEx => no_accept_ex(),
                        AcceptExtension::GetAcceptExSockaddrs => no_sockaddrs(),
                    },
                ),
                Err(error) => Err(error),
            },
            final(self).accept_ex == (old(self).accept_ex || (extension is AcceptEx && r is Ok)),
            final(self).get_accept_ex_sockaddrs == (old(self).get_accept_ex_sockaddrs || (
            extension is GetAcceptExSockaddrs && r is Ok)),
            final(self).handle == old(self).handle,
            final(self).accept_socket == old(self).accept_socket,
            final(self).bytes_received == old(self).bytes_received,
            final(self).accept_output_buffer == old(self).accept_output_buffer,
            final(self).completion_token == old(self).completion_token,
    {
        match found {
            Ok(available) => {
                if available {
                    match extension {
                        AcceptExtension::AcceptEx => {
                            self.accept_ex = true;
                        },
                        AcceptExtension::GetAcceptExSockaddrs => {
                            self.get_accept_ex_sockaddrs = true;
                        },
                    }
                    return Ok(());
                }
                match extension {
                    AcceptExtension::AcceptEx => Err(
                        IoError::Message(
                            ErrorKind::Unsupported,
                            "AcceptEx extension function is unavailable",
                        ),
                    ),
                    AcceptExtension::GetAcceptExSockaddrs => Err(
                        IoError::Message(
                            ErrorKind::Unsupported,
                            "GetAcceptExSockaddrs extension function is unavailable",
                        ),
                    ),
                }
            },
            Err(error) => Err(error),
        }
    }

    /// Take in the socket that was made for the connection.
    pub fn socket_created(&mut self, created: Result<S, IoError>) -> (r: Result<(), IoError>)
        ensures
            match created {
                Ok(socket) => r is Ok && final(self).accept_socket == Some(socket),
                Err(error) => r == Err::<(), IoError>(error) && final(self).accept_socket == old(
                    self,
                ).accept_socket,
            },
            final(self).handle == old(self).handle,
            final(self).accept_ex == old(self).accept_ex,
            final(self).get_accept_ex_sockaddrs == old(self).get_accept_ex_sockaddrs,
            final(self).bytes_received == old(self).bytes_received,
            final(self).accept_output_buffer == old(self).accept_output_buffer,
            final(self).completion_token == old(self).completion_token,
    {
        match created {
            Ok(socket) => {
                self.accept_socket = Some(socket);
                Ok(())
            },
            Err(error) => Err(error),
        }
    }

    /// Take in how the overlapped call was started. `error` is the code of a call
    /// that did not succeed at once; one that failed closes the socket.
    pub fn windows_started(&mut self, error: Option<i32>) -> (r: Result<(), IoError>)
        ensures
            r == overlapped_spec(error),
            final(self).accept_socket == if r is Ok {
                old(self).accept_socket
            } else {
                None
            },
            final(self).handle == old(self).handle,
            final(self).accept_ex == old(self).accept_ex,
            final(self).get_accept_ex_sockaddrs == old(self).get_accept_ex_sockaddrs,
            final(self).bytes_received == old(self).bytes_received,
            final(self).accept_output_buffer == old(self).accept_output_buffer,
            final(self).completion_token == old(self).completion_token,
    {
        let started = overlapped_started(error);
        if started.is_err() {
            self.accept_socket = None;
        }
        started
    }

    /// Take the output buffer of a completed `AcceptEx` once the socket has taken
    /// over the context of the listener.
    pub fn take_output_buffer(&mut self, context: Result<(), IoError>) -> (r: Result<
        Vec<u8>,
        IoError,
    >)
        ensures
            r == match (context, old(self).accept_output_buffer) {
                (Err(error), _) => Err::<Vec<u8>, IoError>(error),
                (Ok(_), None) => Err(no_peer_address()),
                (Ok(_), Some(buffer)) => if old(self).get_accept_ex_sockaddrs {
                    Ok(buffer)
                } else {
                    Err(no_sockaddrs())
                },
            },
            final(self).accept_output_buffer == if context is Ok {
                None
            } else {
                old(self).accept_output_buffer
            },
            final(self).handle == old(self).handle,
            final(self).accept_ex == old(self).accept_ex,
            final(self).get_accept_ex_sockaddrs == old(self).get_accept_ex_sockaddrs,
            final(self).accept_socket == old(self).accept_socket,
            final(self).bytes_received == old(self).bytes_received,
            final(self).completion_token == old(self).completion_token,
    {
        match context {
            Ok(_) => {},
            Err(error) => {
                return Err(error);
            },
        }
        match self.accept_output_buffer.take() {
            Some(buffer) => {
                if self.get_accept_ex_sockaddrs {
                    Ok(buffer)
                } else {
                    Err(
                        IoError::Message(
                            ErrorKind::Unsupported,
                            "GetAcceptExSockaddrs extension function is unavailable",
                        ),
                    )
                }
            },
            None => Err(
                IoError::Message(ErrorKind::Other, "AcceptEx completion missing peer address"),
            ),
        }
    }
}

/// Finish an `AcceptEx`: the remote address lies somewhere in the output buffer,
/// which starts at `base`. A connection whose peer cannot be told is given up,
/// and its socket closed.
pub fn finish_accept_ex<S>(
    format: AddressFormat,
    owned: S,
    buffer: &[u8],
    base: usize,
    remote: usize,
    remote_len: i32,
) -> (r: Result<(S, SocketAddr), IoError>)
    ensures
        r matches Ok((socket, address)) ==> {
            &&& socket == owned
            &&& inside(buffer@, base, remote, remote_len) && remote_len <= STORAGE_LEN
            &&& decodes(
                format,
                padded(buffer@.subrange(remote - base, remote - base + remote_len)),
                remote_len as usize,
                Ok::<SocketAddr, IoError>(address),
            )
        },
        r matches Err(error) ==> if !inside(buffer@, base, remote, remote_len) {
            error == outside_buffer()
        } else if remote_len > STORAGE_LEN {
            error == bad_length()
        } else {
            decodes(
                format,
                padded(buffer@.subrange(remote - base, remote - base + remote_len)),
                remote_len as usize,
                Err::<SocketAddr, IoError>(error),
            )
        },
{
    match socketaddr_from_buffer(format, buffer, base, remote, remote_len) {
        Ok(address) => Ok((owned, address)),
        Err(error) => Err(error),
    }
}

impl<'a, S> Op for AcceptOp<'a, S> {
    type Output = Accepted<S>;

    open spec fn token(&self) -> Option<usize> {
        self.completion_token
    }

    open spec fn admits(&self, result: i32) -> bool {
        true
    }

    fn completion_token(&self) -> (r: Option<usize>) {
        self.completion_token
    }

    fn completion_returns_fd(&self) -> (r: bool)
        ensures
            r == (self.handle.system() == System::Linux),
    {
        matches!(self.handle.system(), System::Linux)
    }

    fn poll_call(&self) -> (r: Result<SystemCall, IoError>)
        ensures
            r == match self.handle.handle {
                RawOsHandle::Fd(fd) => Ok::<SystemCall, IoError>(
                    SystemCall::Accept { fd, flags: accept_flags(self.handle.unix) },
                ),
                RawOsHandle::Socket(listener) => Ok(SystemCall::WsaAccept { listener }),
                RawOsHandle::Handle(_) => Err(invalid_input("invalid raw handle")),
            },
    {
        match self.handle.handle {
            RawOsHandle::Fd(fd) => Ok(
                SystemCall::Accept { fd, flags: accept_flags(self.handle.unix) },
            ),
            RawOsHandle::Socket(listener) => Ok(SystemCall::WsaAccept { listener }),
            RawOsHandle::Handle(_) => Err(
                IoError::Message(ErrorKind::InvalidInput, "invalid raw handle"),
            ),
        }
    }

    /// A connection of Windows still has to take over the context of the
    /// listener, and the address of its peer is still in the output buffer.
    fn poll_completion(&mut self, reply: Reply) -> (r: Poll<Result<Accepted<S>, IoError>>)
        ensures
            match reply.settled() {
                Settled::Pending => r is Pending && final(self).accept_socket == old(
                    self,
                ).accept_socket,
                Settled::Refused(error) => r == Poll::Ready(Err::<Accepted<S>, IoError>(error))
                    && final(self).accept_socket == old(self).accept_socket,
                Settled::Result(result) => match old(self).handle.handle {
                    RawOsHandle::Fd(_) => {
                        &&& r == Poll::Ready(
                            match accepted_fd(old(self).handle.system(), result) {
                                Ok(fd) => Ok::<Accepted<S>, IoError>(Accepted::Descriptor(fd)),
                                Err(error) => Err(error),
                            },
                        )
                        &&& final(self).accept_socket == old(self).accept_socket
                    },
                    RawOsHandle::Socket(_) => {
                        &&& r == Poll::Ready(
                            if result < 0 {
                                Err::<Accepted<S>, IoError>(
                                    crate::error::completion_error_spec(
                                        old(self).handle.system(),
                                        result,
                                    ),
                                )
                            } else {
                                match old(self).accept_socket {
                                    Some(socket) => Ok(Accepted::Socket(socket)),
                                    None => Err(no_accepted_socket()),
                                }
                            },
                        )
                        &&& final(self).accept_socket is None
                    },
                    RawOsHandle::Handle(_) => {
                        &&& r == Poll::Ready(
                            Err::<Accepted<S>, IoError>(
                                if result < 0 {
                                    crate::error::completion_error_spec(
                                        old(self).handle.system(),
                                        result,
                                    )
                                } else {
                                    not_a_listener()
                                },
                            ),
                        )
                        &&& final(self).accept_socket == if result < 0 {
                            None
                        } else {
                            old(self).accept_socket
                        }
                    },
                },
            },
            final(self).completion_token == reply.token_after(old(self).completion_token),
            final(self).handle == old(self).handle,
            final(self).accept_ex == old(self).accept_ex,
            final(self).get_accept_ex_sockaddrs == old(self).get_accept_ex_sockaddrs,
            final(self).bytes_received == old(self).bytes_received,
            final(self).accept_output_buffer == old(self).accept_output_buffer,
    {
        let result: i32 = match settle(&mut self.completion_token, reply) {
            Settled::Pending => {
                return Poll::Pending;
            },
            Settled::Refused(error) => {
                return Poll::Ready(Err(error));
            },
            Settled::Result(result) => result,
        };
        match self.handle.handle {
            RawOsHandle::Fd(_) => match accept_result(self.handle.system(), result) {
                Ok(fd) => Poll::Ready(Ok(Accepted::Descriptor(fd))),
                Err(error) => Poll::Ready(Err(error)),
            },
            RawOsHandle::Socket(_) => {
                if result < 0 {
                    self.accept_socket = None;
                    return Poll::Ready(Err(crate::error::completion_error(self.handle.system(), result)));
                }
                match self.accept_socket.take() {
                    Some(socket) => Poll::Ready(Ok(Accepted::Socket(socket))),
                    None => Poll::Ready(
                        Err(
                            IoError::Message(
                                ErrorKind::Other,
                                "AcceptEx completion missing accepted socket",
                            ),
                        ),
                    ),
                }
            },
            RawOsHandle::Handle(_) => {
                if result < 0 {
                    self.accept_socket = None;
                    return Poll::Ready(Err(crate::error::completion_error(self.handle.system(), result)));
                }
                Poll::Ready(
                    Err(
                        IoError::Message(
                            ErrorKind::InvalidInput,
                            "AcceptEx can be used only with listening sockets",
                        ),
                    ),
                )
            },
        }
    }

    fn build_completion_entry(&mut self, user_data: u64) -> (r: Result<CompletionEntry, IoError>)
        ensures
            r == match old(self).handle.handle {
                RawOsHandle::Fd(fd) => Ok::<CompletionEntry, IoError>(
                    CompletionEntry {
                        fd,
                        opcode: Opcode::Accept { flags: ACCEPT_FLAGS },
                        user_data,
                    },
                ),
                _ => Err(no_completion()),
            },
            *final(self) == *old(self),
    {
        match self.handle.handle {
            RawOsHandle::Fd(fd) => Ok(
                CompletionEntry { fd, opcode: Opcode::Accept { flags: ACCEPT_FLAGS }, user_data },
            ),
            _ => Err(completion_unsupported()),
        }
    }

    /// The extension functions are looked up and the socket is made first, each
    /// once; the overlapped call then gets zeroed room for both addresses.
    fn submit_windows(&mut self) -> (r: Result<WindowsCall, IoError>)
        ensures
            r == match old(self).handle.handle {
                RawOsHandle::Socket(listener) => Ok::<WindowsCall, IoError>(
                    if !old(self).accept_ex {
                        WindowsCall::LoadAcceptEx { listener }
                    } else if !old(self).get_accept_ex_sockaddrs {
                        WindowsCall::LoadGetAcceptExSockaddrs { listener }
                    } else if old(self).accept_socket is None {
                        WindowsCall::CreateAcceptSocket { listener }
                    } else {
                        WindowsCall::AcceptEx { listener }
                    },
                ),
                RawOsHandle::Handle(_) => Err(not_a_listener()),
                RawOsHandle::Fd(_) => Err(no_completion()),
            },
            if r matches Ok(WindowsCall::AcceptEx { listener }) {
                &&& match old(self).accept_output_buffer {
                    Some(buffer) => final(self).accept_output_buffer == Some(buffer),
                    None => final(self).accept_output_buffer matches Some(fresh) && {
                        &&& fresh@.len() == ACCEPTEX_OUTPUT_BUFFER_LEN
                        &&& forall|i: int| 0 <= i < fresh@.len() ==> #[trigger] fresh@[i] == 0
                    },
                }
                &&& final(self).bytes_received == match old(self).bytes_received {
                    Some(count) => Some(count),
                    None => Some(Box::new(0u32)),
                }
            } else {
                &&& final(self).accept_output_buffer == old(self).accept_output_buffer
                &&& final(self).bytes_received == old(self).bytes_received
            },
            final(self).handle == old(self).handle,
            final(self).accept_ex == old(self).accept_ex,
            final(self).get_accept_ex_sockaddrs == old(self).get_accept_ex_sockaddrs,
            final(self).accept_socket == old(self).accept_socket,
            final(self).completion_token == old(self).completion_token,
    {
        let listener: u64 = match self.handle.handle {
            RawOsHandle::Socket(listener) => listener,
            RawOsHandle::Handle(_) => {
                return Err(
                    IoError::Message(
                        ErrorKind::InvalidInput,
                        "AcceptEx can be used only with listening sockets",
                    ),
                );
            },
            RawOsHandle::Fd(_) => {
                return Err(completion_unsupported());
            },
        };
        if !self.accept_ex {
            return Ok(WindowsCall::LoadAcceptEx { listener });
        }
        if !self.get_accept_ex_sockaddrs {
            return Ok(WindowsCall::LoadGetAcceptExSockaddrs { listener });
        }
        if self.accept_socket.is_none() {
            return Ok(WindowsCall::CreateAcceptSocket { listener });
        }
        if self.accept_output_buffer.is_none() {
            self.accept_output_buffer = Some(vec![0u8; ACCEPTEX_OUTPUT_BUFFER_LEN]);
        }
        if self.bytes_received.is_none() {
            self.bytes_received = Some(Box::new(0));
        }
        Ok(WindowsCall::AcceptEx { listener })
    }
}

/// A connection is handed out with the address that its peer has. One whose peer cannot be
/// told, or that could not be marked, is given up with that error.
pub proof fn connections_come_with_their_peer<S>(
    format: AddressFormat,
    owned: S,
    storage: [u8; 128],
    length: usize,
    decoded: Result<SocketAddr, IoError>,
    r: Result<(S, SocketAddr), IoError>,
    unix: Result<(S, SocketAddr), IoError>,
)
    requires
        call_ensures(sockaddr_storage_to_socketaddr, (format, &storage, length), decoded),
        call_ensures(finish_accept::<S>, (format, owned, Ok((storage, length))), r),
        call_ensures(finish_unix_accept::<S>, (format, owned, Ok(()), Ok((storage, length))), unix),
    ensures
        (match (r, decoded) {
            (Ok((socket, address)), Ok(own)) => socket == owned && address.same(own),
            (Err(a), Err(b)) => a == b,
            _ => false,
        }),
        (match (unix, decoded) {
            (Ok((socket, address)), Ok(own)) => socket == owned && address.same(own),
            (Err(a), Err(b)) => a == b,
            _ => false,
        }),
{
    let claimed = match r {
        Ok((_, address)) => Ok::<SocketAddr, IoError>(address),
        Err(error) => Err(error),
    };
    crate::op::socket_addr::decodings_are_unique(format, storage, length, claimed, decoded);
    let claimed_unix = match unix {
        Ok((_, address)) => Ok::<SocketAddr, IoError>(address),
        Err(error) => Err(error),
    };
    crate::op::socket_addr::decodings_are_unique(format, storage, length, claimed_unix, decoded);
}

/// A connection whose peer or mark failed is given up with the first of these errors.
pub proof fn failed_accepts_give_the_connection_up<S>(
    format: AddressFormat,
    owned: S,
    flags: Result<(), IoError>,
    peer: Result<([u8; 128], usize), IoError>,
    error: IoError,
    r: Result<(S, SocketAddr), IoError>,
    unix: Result<(S, SocketAddr), IoError>,
)
    requires
        call_ensures(finish_accept::<S>, (format, owned, peer), r),
        call_ensures(finish_unix_accept::<S>, (format, owned, flags, peer), unix),
    ensures
        peer == Err::<([u8; 128], usize), IoError>(error) ==> r
            == Err::<(S, SocketAddr), IoError>(error),
        flags == Err::<(), IoError>(error) ==> unix == Err::<(S, SocketAddr), IoError>(error),
        flags is Ok && peer == Err::<([u8; 128], usize), IoError>(error) ==> unix == Err::<
            (S, SocketAddr),
            IoError,
        >(error),
{
}

/// The family of a listener is that of the address it is bound to.
pub proof fn listeners_are_of_their_family(
    format: AddressFormat,
    storage: [u8; 128],
    length: usize,
    decoded: Result<SocketAddr, IoError>,
    r: Result<u16, IoError>,
)
    requires
        call_ensures(sockaddr_storage_to_socketaddr, (format, &storage, length), decoded),
        call_ensures(listener_socket_family, (format, &storage, length), r),
    ensures
        match (r, decoded) {
            (Ok(family), Ok(SocketAddr::V4 { ip, port })) => family == 2,
            (Ok(family), Ok(SocketAddr::V6 { ip, port, flowinfo, scope_id })) => family
                == match format.system {
                System::Linux => 10u16,
                System::Macos => 30u16,
                System::Windows => 23u16,
            },
            (Err(a), Err(b)) => a == b,
            _ => false,
        },
{
    match r {
        Ok(family) => {
            let address = choose|address: SocketAddr| #[trigger]
                decodes(format, storage@, length, Ok::<SocketAddr, IoError>(address)) && family
                    == if address is V4 {
                    AF_INET
                } else {
                    format.system.inet6()
                };
            crate::op::socket_addr::decodings_are_unique(
                format,
                storage,
                length,
                Ok(address),
                decoded,
            );
        },
        Err(error) => {
            crate::op::socket_addr::decodings_are_unique(
                format,
                storage,
                length,
                Err(error),
                decoded,
            );
        },
    }
}

/// The peer of an accept on Windows is what the output buffer holds at the address that was
/// reported; the socket comes out with it.
pub proof fn accepted_peers_are_read_in_place<S>(
    format: AddressFormat,
    owned: S,
    buffer: &[u8],
    base: usize,
    remote: usize,
    remote_len: i32,
    decoded: Result<SocketAddr, IoError>,
    r: Result<(S, SocketAddr), IoError>,
)
    requires
        call_ensures(socketaddr_from_buffer, (format, buffer, base, remote, remote_len), decoded),
        call_ensures(finish_accept_ex::<S>, (format, owned, buffer, base, remote, remote_len), r),
    ensures
        (match (r, decoded) {
            (Ok((socket, address)), Ok(own)) => socket == owned && address.same(own),
            (Err(a), Err(b)) => a == b,
            _ => false,
        }),
{
}

/// A completed accept hands out the descriptor that came, or the socket that was made for
/// the connection, once; a failed one closes that socket.
pub proof fn completed_accepts_hand_the_connection_out<'a, S>(
    before: AcceptOp<'a, S>,
    after: AcceptOp<'a, S>,
    reply: Reply,
    r: Poll<Result<Accepted<S>, IoError>>,
    result: i32,
    token: usize,
    error: IoError,
)
    requires
        exists|op: &mut AcceptOp<'a, S>|
            *op == before && *final(op) == after && #[trigger] call_ensures(
                <AcceptOp<'a, S> as Op>::poll_completion,
                (op, reply),
                r,
            ),
    ensures
        (reply == Reply::Submitted(CompletionIoResult::Completed(result)) || reply
            == Reply::Collected(
            Some(result),
        )) && result >= 0 ==> match (before.handle.handle, before.accept_socket) {
            (RawOsHandle::Fd(_), _) => r == Poll::Ready(
                Ok::<Accepted<S>, IoError>(Accepted::Descriptor(result)),
            ),
            (RawOsHandle::Socket(_), Some(socket)) => after.accept_socket is None && r
                == Poll::Ready(
                Ok::<Accepted<S>, IoError>(Accepted::Socket(socket)),
            ),
            _ => r matches Poll::Ready(Err(_)),
        },
        (reply == Reply::Submitted(CompletionIoResult::Completed(result)) || reply
            == Reply::Collected(
            Some(result),
        )) && i32::MIN < result < 0 ==> (r matches Poll::Ready(
            Err(IoError::Os(own, code)),
        ) && own == before.handle.system() && code == -result),
        (reply == Reply::Submitted(CompletionIoResult::Completed(result)) || reply
            == Reply::Collected(
            Some(result),
        )) && result < 0 && !(before.handle.handle is Fd) ==> after.accept_socket is None,
        (reply == Reply::Submitted(CompletionIoResult::Completed(result)) || reply
            == Reply::Collected(
            Some(result),
        )) ==> after.completion_token is None && (result < 0 ==> (r matches Poll::Ready(Err(_)))),
        reply == Reply::Submitted(CompletionIoResult::Retry(token)) ==> r is Pending
            && after.completion_token == Some(token),
        reply == Reply::Submitted(CompletionIoResult::SubmitErr(error))
            ==> after.completion_token is None
            && r == Poll::Ready(Err::<Accepted<S>, IoError>(error)),
        reply == Reply::Collected(None) ==> r is Pending && after.completion_token
            == before.completion_token,
        r is Pending ==> after.accept_socket == before.accept_socket,
        after.handle == before.handle && after.accept_ex == before.accept_ex
            && after.get_accept_ex_sockaddrs == before.get_accept_ex_sockaddrs
                && after.bytes_received == before.bytes_received
            && after.accept_output_buffer == before.accept_output_buffer,
{
}

/// An accept is made on its own listener; the new descriptor does not block and is closed
/// on exec.
pub proof fn accepts_neither_block_nor_leak<'a, S>(
    before: AcceptOp<'a, S>,
    after: AcceptOp<'a, S>,
    user_data: u64,
    r: Result<CompletionEntry, IoError>,
)
    requires
        exists|op: &mut AcceptOp<'a, S>|
            *op == before && *final(op) == after && #[trigger] call_ensures(
                <AcceptOp<'a, S> as Op>::build_completion_entry,
                (op, user_data),
                r,
            ),
    ensures
        r matches Ok(entry) ==> {
            &&& before.handle.handle == RawOsHandle::Fd(entry.fd)
            &&& entry.user_data == user_data
            &&& entry.opcode matches Opcode::Accept { flags } && flags == 0x8_0800
        },
        r is Ok <==> before.handle.handle is Fd,
        after == before,
{
}

/// A polled accept is made on its own listener. On Linux the new descriptor does not
/// block and is closed on exec; elsewhere the call takes no flags.
pub proof fn polled_accepts_are_made_on_the_listener<'a, S>(
    op: AcceptOp<'a, S>,
    r: Result<SystemCall, IoError>,
)
    requires
        call_ensures(<AcceptOp<'a, S> as Op>::poll_call, (&op,), r),
    ensures
        op.handle.handle matches RawOsHandle::Fd(fd) ==> (r matches Ok(
            SystemCall::Accept { fd: own, flags },
        ) && own == fd && flags == if op.handle.unix is Linux {
            0x8_0800i32
        } else {
            0i32
        }),
        op.handle.handle matches RawOsHandle::Socket(socket) ==> r == Ok::<SystemCall, IoError>(
            SystemCall::WsaAccept { listener: socket },
        ),
        op.handle.handle is Handle ==> r is Err,
{
}

/// A polled accept hands out the socket of its call; it waits only where the call would have
/// had to. A multishot accept hands out the descriptor that came, or its error.
pub proof fn polled_accepts_hand_the_connection_out<'a, S>(
    before: AcceptOp<'a, S>,
    after: AcceptOp<'a, S>,
    result: Result<S, IoError>,
    r: Attempt<S>,
    number: i32,
    error: IoError,
    outcome: Poll<Result<i32, IoError>>,
    shot: Poll<Result<i32, IoError>>,
    owned: bool,
)
    requires
        exists|op: &mut AcceptOp<'a, S>|
            *op == before && *final(op) == after && #[trigger] call_ensures(
                AcceptOp::<'a, S>::poll_poll,
                (op, result),
                r,
            ),
        exists|op: &mut AcceptOp<'a, S>|
            *op == before && *final(op) == after && #[trigger] call_ensures(
                AcceptOp::<'a, S>::poll_multishot,
                (op, outcome),
                shot,
            ),
        call_ensures(<AcceptOp<'a, S> as Op>::completion_returns_fd, (&before,), owned),
    ensures
        r matches Attempt::Done(own) ==> own == result,
        r matches Attempt::AwaitReadiness(awaited) ==> awaited is Readable,
        r is AwaitReadiness <==> (result matches Err(error) && error.would_block()),
        after == before,
        outcome == Poll::Ready(Ok::<i32, IoError>(number)) && number >= 0 ==> shot == outcome,
        outcome == Poll::Ready(Ok::<i32, IoError>(number)) && i32::MIN < number < 0
            ==> (shot matches
            Poll::Ready(Err(IoError::Os(own, code))) && own == before.handle.system() && code
            == -number),
        outcome == Poll::Ready(Err::<i32, IoError>(error)) ==> shot == outcome,
        outcome is Pending ==> shot is Pending,
        owned <==> before.handle.handle is Fd && before.handle.unix is Linux,
{
}

/// On Windows the two extension functions are looked up and a socket is made, in this
/// order and each once, before the call is made; it then has room for both addresses and
/// for the count, that which it had or new and zeroed.
pub proof fn windows_accepts_prepare_before_they_call<'a, S>(
    before: AcceptOp<'a, S>,
    after: AcceptOp<'a, S>,
    r: Result<WindowsCall, IoError>,
)
    requires
        exists|op: &mut AcceptOp<'a, S>|
            *op == before && *final(op) == after && #[trigger] call_ensures(
                <AcceptOp<'a, S> as Op>::submit_windows,
                (op,),
                r,
            ),
    ensures
        before.handle.handle matches RawOsHandle::Socket(listener) ==> r
            == Ok::<WindowsCall, IoError>(
            match (before.accept_ex, before.get_accept_ex_sockaddrs, before.accept_socket) {
                (false, _, _) => WindowsCall::LoadAcceptEx { listener },
                (true, false, _) => WindowsCall::LoadGetAcceptExSockaddrs { listener },
                (true, true, None) => WindowsCall::CreateAcceptSocket { listener },
                (true, true, Some(_)) => WindowsCall::AcceptEx { listener },
            },
        ),
        !(before.handle.handle is Socket) ==> r is Err,
        (r matches Ok(WindowsCall::AcceptEx { listener })) ==> after.bytes_received is Some && (
        after.accept_output_buffer matches Some(room) && match before.accept_output_buffer {
            Some(kept) => room == kept,
            None => room@.len() == 288 && forall|i: int|
                0 <= i < 288 ==> #[trigger] room@[i] == 0,
        }),
        before.bytes_received is Some ==> after.bytes_received == before.bytes_received,
        before.bytes_received is None ==> (after.bytes_received matches Some(count) ==> *count
            == 0),
        before.accept_output_buffer is Some ==> after.accept_output_buffer
            == before.accept_output_buffer,
        after.handle == before.handle && after.accept_ex == before.accept_ex
            && after.get_accept_ex_sockaddrs == before.get_accept_ex_sockaddrs
                && after.accept_socket == before.accept_socket
            && after.completion_token == before.completion_token,
{
}

/// The output buffer is taken once, after the socket took over the context of the listener
/// and where the peer can be read from it.
pub proof fn output_buffers_are_taken_once<'a, S>(
    before: AcceptOp<'a, S>,
    after: AcceptOp<'a, S>,
    context: Result<(), IoError>,
    r: Result<Vec<u8>, IoError>,
    error: IoError,
)
    requires
        exists|op: &mut AcceptOp<'a, S>|
            *op == before && *final(op) == after && #[trigger] call_ensures(
                AcceptOp::<'a, S>::take_output_buffer,
                (op, context),
                r,
            ),
    ensures
        r matches Ok(buffer) ==> before.accept_output_buffer == Some(buffer),
        r is Ok <==> context is Ok && before.accept_output_buffer is Some
            && before.get_accept_ex_sockaddrs,
        context == Err::<(), IoError>(error) ==> r == Err::<Vec<u8>, IoError>(error)
            && after.accept_output_buffer == before.accept_output_buffer,
        context is Ok ==> after.accept_output_buffer is None,
        after.handle == before.handle && after.accept_ex == before.accept_ex
            && after.get_accept_ex_sockaddrs == before.get_accept_ex_sockaddrs
                && after.accept_socket == before.accept_socket,
{
}

/// An extension function is there once it was found, the one that was looked for; a socket
/// is kept once it was made; one whose call failed to start is closed.
pub proof fn accept_preparations_take_effect<'a, S>(
    before: AcceptOp<'a, S>,
    loaded: AcceptOp<'a, S>,
    made: AcceptOp<'a, S>,
    started: AcceptOp<'a, S>,
    extension: AcceptExtension,
    found: Result<bool, IoError>,
    created: Result<S, IoError>,
    code: Option<i32>,
    r1: Result<(), IoError>,
    r2: Result<(), IoError>,
    r3: Result<(), IoError>,
)
    requires
        exists|op: &mut AcceptOp<'a, S>|
            *op == before && *final(op) == loaded && #[trigger] call_ensures(
                AcceptOp::<'a, S>::extension_loaded,
                (op, extension, found),
                r1,
            ),
        exists|op: &mut AcceptOp<'a, S>|
            *op == before && *final(op) == made && #[trigger] call_ensures(
                AcceptOp::<'a, S>::socket_created,
                (op, created),
                r2,
            ),
        exists|op: &mut AcceptOp<'a, S>|
            *op == before && *final(op) == started && #[trigger] call_ensures(
                AcceptOp::<'a, S>::windows_started,
                (op, code),
                r3,
            ),
    ensures
        r1 is Ok <==> found == Ok::<bool, IoError>(true),
        found matches Err(error) ==> r1 == Err::<(), IoError>(error),
        loaded.accept_ex <==> before.accept_ex || (extension is AcceptEx && r1 is Ok),
        loaded.get_accept_ex_sockaddrs <==> before.get_accept_ex_sockaddrs || (extension is
            GetAcceptExSockaddrs && r1 is Ok),
        created matches Ok(socket) ==> r2 is Ok && made.accept_socket == Some(socket),
        created matches Err(error) ==> r2 == Err::<(), IoError>(error) && made.accept_socket
            == before.accept_socket,
        r3 is Ok <==> code is None || code == Some(997i32),
        started.accept_socket == if r3 is Ok { before.accept_socket } else { None },
{
}

/// An accept that is with its driver leaves socket, buffer and count there.
pub proof fn cancelled_accepts_leave_their_storage<'a, S>(
    op: AcceptOp<'a, S>,
    r: Option<Cancelled<AcceptStorage<S>>>,
)
    requires
        call_ensures(AcceptOp::<'a, S>::cancel, (op,), r),
    ensures
        r is Some <==> op.completion_token is Some,
        r matches Some(left) ==> op.completion_token == Some(left.token) && left.driver
            == op.handle.driver && left.storage.accept_socket == op.accept_socket
            && left.storage.accept_output_buffer == op.accept_output_buffer
            && left.storage.bytes_received == op.bytes_received,
{
}

/// An accept is made for the handle it is given, with the driver not asked yet.
pub proof fn accepts_are_made_for_their_handle<'a, S>(
    handle: &'a InnerRawHandle,
    made: AcceptOp<'a, S>,
)
    requires
        call_ensures(AcceptOp::<'a, S>::new, (handle,), made),
    ensures
        made.handle == handle && made.completion_token is None,
        !made.accept_ex && !made.get_accept_ex_sockaddrs && made.accept_socket is None
            && made.bytes_received is None && made.accept_output_buffer is None,
{
}

/// An accept asks for the result under its token exactly while it has one.
pub proof fn accepts_ask_under_their_token<'a, S>(
    op: AcceptOp<'a, S>,
    token: Option<usize>,
    request: Request,
)
    requires
        call_ensures(<AcceptOp<'a, S> as Op>::completion_token, (&op,), token),
        call_ensures(<AcceptOp<'a, S> as Op>::request, (&op,), request),
    ensures
        token == op.completion_token && op.token() == op.completion_token,
        request is Submit <==> op.completion_token is None,
        request matches Request::Collect(own) ==> op.completion_token == Some(own),
{
}

} // verus!
