//! I/O operations against a driver that only keeps what it is handed.

use std::any::Any;
use std::sync::Arc;

use windows_sys::Win32::Foundation;
use windows_sys::Win32::Networking::WinSock;

use rsloop_vibeio::error::{completion_error, ErrorKind, IoError};
use rsloop_vibeio::handle::{DriverId, InnerRawHandle, RawOsHandle};
use rsloop_vibeio::io::{
    gather, scatter, segment_lengths, ByteBuf, IoBuf,
};
use rsloop_vibeio::op::accept::{
    finish_accept_ex, finish_unix_accept, listener_socket_family, AcceptExtension, AcceptOp,
    Accepted, ACCEPTEX_ADDR_LEN, ACCEPTEX_OUTPUT_BUFFER_LEN,
};
use rsloop_vibeio::op::accept_unix::{
    accept_result, finish_marked, AcceptUnixOp, ACCEPT_FLAGS, SOCK_CLOEXEC, SOCK_NONBLOCK,
};
use rsloop_vibeio::op::connect::{
    connectex_bind_error, ConnectEvent, ConnectOp, ConnectStep, Connected, WSAEINVAL,
};
use rsloop_vibeio::op::io_util::{
    checked_total, completion_len, completion_vectored_len, iovec_count, positional_offset,
    read_error_result, retry_interrupted, set_cloexec, transfer_len, CloexecStep,
    CompletionBuffer, ERROR_HANDLE_EOF, FD_CLOEXEC,
};
use rsloop_vibeio::op::open::{OpenOp, AT_FDCWD};
use rsloop_vibeio::op::read::ReadOp;
use rsloop_vibeio::op::readat::ReadAtOp;
use rsloop_vibeio::op::readv::ReadvOp;
use rsloop_vibeio::op::recv::{receive_flags, RecvOp, MSG_PEEK};
use rsloop_vibeio::op::recvfrom::RecvfromOp;
use rsloop_vibeio::op::send::SendOp;
use rsloop_vibeio::op::sendto::SendtoOp;
use rsloop_vibeio::op::socket_addr::{socket_addr_to_raw, SocketAddr};
use rsloop_vibeio::op::splice::{SpliceEvent, SpliceOp, SpliceStep, SPLICE_F_NONBLOCK};
use rsloop_vibeio::op::statx::StatxOp;
use rsloop_vibeio::op::unlink::{UnlinkOp, AT_REMOVEDIR};
use rsloop_vibeio::op::waitpid::{reap_result, WaitEvent, WaitPidOp, WaitStep};
use rsloop_vibeio::op::writeat::{validate_windows_write_offset, WriteAtOp};
use rsloop_vibeio::op::writev::WritevOp;
use rsloop_vibeio::op::{
    overlapped_started, transfer_result, Cancelled, CompletionEntry, CompletionIoResult, Mode, Op,
    Opcode, Reply, Request, SystemCall, WindowsCall, ERROR_IO_PENDING,
};
use rsloop_vibeio::poll::{readiness_registered, Attempt, Interest, Poll};
use rsloop_vibeio::system::{System, Unix};

const OWNER: DriverId = DriverId(1);

fn mock() -> InnerRawHandle {
    InnerRawHandle::for_mock_completion(OWNER)
}

fn polling(handle: RawOsHandle) -> InnerRawHandle {
    InnerRawHandle {
        handle,
        completion: false,
        ..mock()
    }
}

/// A buffer that holds the bytes and has no more room.
fn full(bytes: Vec<u8>) -> ByteBuf {
    ByteBuf::from_vec(bytes)
}

fn loopback(port: u16) -> SocketAddr {
    SocketAddr::V4 {
        ip: [127, 0, 0, 1],
        port,
    }
}

/// A driver that keeps what cancelled operations leave with it.
#[derive(Default)]
struct MockDriver {
    ignored: Vec<(usize, Box<dyn Any>)>,
}

impl MockDriver {
    fn retain<S: 'static>(&mut self, cancelled: Option<Cancelled<S>>) {
        if let Some(cancelled) = cancelled {
            assert_eq!(cancelled.driver, OWNER);
            self.ignored
                .push((cancelled.token, Box::new(cancelled.storage)));
        }
    }
}

#[test]
fn accept_cancelled_accept_uses_the_owning_driver() {
    let handle = mock();
    let mut owner = MockDriver::default();
    let mut op: AcceptOp<u64> = AcceptOp::new(&handle);
    op.completion_token = Some(41);
    owner.retain(op.cancel());
    assert_eq!(owner.ignored.len(), 1);
    assert_eq!(owner.ignored[0].0, 41);
    owner.retain(AcceptOp::<u64>::new(&handle).cancel());
    assert_eq!(owner.ignored.len(), 1);
}

#[test]
fn accept_unix_cancelled_accept_uses_the_owning_driver() {
    let handle = mock();
    let mut owner = MockDriver::default();
    let mut op = AcceptUnixOp::new(&handle);
    op.completion_token = Some(41);
    owner.retain(op.cancel());
    assert_eq!(owner.ignored.len(), 1);
    assert_eq!(owner.ignored[0].0, 41);
    owner.retain(AcceptUnixOp::new(&handle).cancel());
    assert_eq!(owner.ignored.len(), 1);
}

#[test]
fn accepts_ask_for_descriptors_that_are_not_inherited() {
    let handle = polling(RawOsHandle::Fd(5));
    let mut op = AcceptUnixOp::new(&handle);
    assert!(op.completion_returns_fd());
    assert_eq!(
        op.poll_call(),
        Ok(SystemCall::Accept {
            fd: 5,
            flags: libc::SOCK_CLOEXEC | libc::SOCK_NONBLOCK
        })
    );
    // A completed accept stays blocking.
    assert_eq!(
        op.build_completion_entry(17),
        Ok(CompletionEntry {
            fd: 5,
            opcode: Opcode::Accept {
                flags: libc::SOCK_CLOEXEC
            },
            user_data: 17
        })
    );
    assert_eq!(
        op.poll_poll(Err(IoError::Os(System::Linux, libc::EAGAIN))),
        Attempt::AwaitReadiness(Interest::Readable)
    );
    assert_eq!(op.poll_poll(Ok(8)), Attempt::Done(Ok(8)));
    assert_eq!(
        op.poll_completion(Reply::Submitted(CompletionIoResult::Completed(9))),
        Poll::Ready(Ok(9))
    );
    assert_eq!(accept_result(System::Linux, -5), Err(IoError::Os(System::Linux, 5)));
    // Where the call takes no flags, the descriptor is marked afterwards.
    let macos = InnerRawHandle {
        unix: Unix::Macos,
        ..handle
    };
    let op = AcceptUnixOp::new(&macos);
    assert!(!op.completion_returns_fd());
    assert_eq!(op.poll_call(), Ok(SystemCall::Accept { fd: 5, flags: 0 }));
    assert_eq!(finish_marked(8, Ok(())), Ok(8));
    let failed = IoError::Os(System::Macos, 9);
    assert_eq!(finish_marked(8, Err(failed)), Err(failed));
    assert_eq!(SOCK_CLOEXEC | SOCK_NONBLOCK, ACCEPT_FLAGS);
    assert_eq!(SOCK_CLOEXEC, libc::SOCK_CLOEXEC);
    assert_eq!(SOCK_NONBLOCK, libc::SOCK_NONBLOCK);
}

#[test]
fn unsupported_peer_address_closes_accepted_socket() {
    let format = mock().addresses();
    let socket = Arc::new(());
    let weak = Arc::downgrade(&socket);
    let mut unix = [0u8; 128];
    unix[0] = 1;
    assert_eq!(
        finish_unix_accept(format, socket, Ok(()), Ok((unix, 2)))
            .unwrap_err()
            .kind(),
        Some(ErrorKind::InvalidData)
    );
    assert!(weak.upgrade().is_none());
}

#[test]
fn successful_accept_transfers_descriptor_and_peer_address() {
    let format = mock().addresses();
    let (storage, length) = socket_addr_to_raw(format, loopback(4321));
    let (owned, address) =
        finish_unix_accept(format, "socket", Ok(()), Ok((storage, length))).unwrap();
    assert_eq!(owned, "socket");
    assert_eq!(address, loopback(4321));
    for (flags, peer) in [
        (Err(IoError::Os(System::Linux, 9)), Ok((storage, length))),
        (Ok(()), Err(IoError::Os(System::Linux, 9))),
    ] {
        assert_eq!(
            finish_unix_accept(format, "socket", flags, peer),
            Err(IoError::Os(System::Linux, 9))
        );
    }
}

#[test]
fn acceptex_is_prepared_step_by_step() {
    let mut handle = polling(RawOsHandle::Socket(77));
    handle.completion = true;
    let mut op: AcceptOp<&str> = AcceptOp::new(&handle);
    assert_eq!(
        op.submit_windows(),
        Ok(WindowsCall::LoadAcceptEx { listener: 77 })
    );
    assert_eq!(
        op.extension_loaded(AcceptExtension::AcceptEx, Ok(false)),
        Err(IoError::Message(
            ErrorKind::Unsupported,
            "AcceptEx extension function is unavailable"
        ))
    );
    assert_eq!(op.extension_loaded(AcceptExtension::AcceptEx, Ok(true)), Ok(()));
    assert_eq!(
        op.submit_windows(),
        Ok(WindowsCall::LoadGetAcceptExSockaddrs { listener: 77 })
    );
    assert_eq!(
        op.extension_loaded(AcceptExtension::GetAcceptExSockaddrs, Ok(true)),
        Ok(())
    );
    assert_eq!(
        op.submit_windows(),
        Ok(WindowsCall::CreateAcceptSocket { listener: 77 })
    );
    assert_eq!(op.socket_created(Ok("accepted")), Ok(()));
    assert_eq!(
        op.submit_windows(),
        Ok(WindowsCall::AcceptEx { listener: 77 })
    );
    assert_eq!(
        op.accept_output_buffer.as_ref().unwrap().len(),
        ACCEPTEX_OUTPUT_BUFFER_LEN
    );
    assert_eq!(ACCEPTEX_OUTPUT_BUFFER_LEN, 2 * ACCEPTEX_ADDR_LEN);
    assert_eq!(op.windows_started(Some(ERROR_IO_PENDING)), Ok(()));
    assert_eq!(op.accept_socket, Some("accepted"));
    assert!(matches!(
        op.poll_completion(Reply::Submitted(CompletionIoResult::Retry(3))),
        Poll::Pending
    ));
    assert_eq!(op.request(), Request::Collect(3));
    assert!(matches!(
        op.poll_completion(Reply::Collected(Some(0))),
        Poll::Ready(Ok(Accepted::Socket("accepted")))
    ));
    let buffer = op.take_output_buffer(Ok(())).unwrap();
    let (storage, length) = socket_addr_to_raw(handle.addresses(), loopback(80));
    let mut output = buffer.clone();
    output[ACCEPTEX_ADDR_LEN..ACCEPTEX_ADDR_LEN + length].copy_from_slice(&storage[..length]);
    assert_eq!(
        finish_accept_ex(
            handle.addresses(),
            "accepted",
            &output,
            4096,
            4096 + ACCEPTEX_ADDR_LEN,
            length as i32
        ),
        Ok(("accepted", loopback(80)))
    );
    let mut failed: AcceptOp<&str> = AcceptOp::new(&handle);
    failed.accept_socket = Some("accepted");
    assert_eq!(failed.windows_started(Some(5)), Err(IoError::Os(System::Windows, 5)));
    assert_eq!(failed.accept_socket, None);
    assert_eq!(
        listener_socket_family(handle.addresses(), &storage, length),
        Ok(2)
    );
}

#[test]
fn multishot_accepts_pass_descriptors_on() {
    let handle = mock();
    let mut op: AcceptOp<u64> = AcceptOp::new(&handle);
    assert_eq!(op.poll_multishot(Poll::Pending), Poll::Pending);
    assert_eq!(
        op.poll_multishot(Poll::Ready(Ok(12))),
        Poll::Ready(Ok(12))
    );
    assert_eq!(
        op.poll_multishot(Poll::Ready(Ok(-24))),
        Poll::Ready(Err(IoError::Os(System::Linux, 24)))
    );
    assert_eq!(
        op.poll_multishot(Poll::Ready(Err(IoError::Os(System::Linux, 3)))),
        Poll::Ready(Err(IoError::Os(System::Linux, 3)))
    );
}

#[test]
fn connectex_bind_errors_preserve_address_conflicts() {
    assert_eq!(WSAEINVAL, WinSock::WSAEINVAL);
    assert!(connectex_bind_error(WinSock::WSAEINVAL).is_ok());
    for error in [
        WinSock::WSAEADDRINUSE,
        WinSock::WSAEACCES,
        WinSock::WSAENOTSOCK,
        WinSock::WSAENOBUFS,
        WinSock::WSAEAFNOSUPPORT,
    ] {
        assert_eq!(
            connectex_bind_error(error).unwrap_err().raw_os_error(),
            Some(error)
        );
    }
}

#[test]
fn polled_connect_is_done_once_there_is_a_peer() {
    for (raw, unix, system, goes_on, unconnected) in [
        (
            RawOsHandle::Fd(4),
            Unix::Linux,
            System::Linux,
            libc::EINPROGRESS,
            libc::ENOTCONN,
        ),
        (RawOsHandle::Fd(4), Unix::Macos, System::Macos, 36, 57),
        (
            RawOsHandle::Socket(4),
            Unix::Linux,
            System::Windows,
            WinSock::WSAEWOULDBLOCK,
            WinSock::WSAENOTCONN,
        ),
    ] {
        let mut handle = polling(raw);
        handle.unix = unix;
        let (storage, length) = socket_addr_to_raw(handle.addresses(), loopback(80));
        let mut op = ConnectOp::new(&handle, storage, length as i64).unwrap();
        let wait = ConnectStep::AwaitReadiness(Interest::Writable);
        assert_eq!(op.poll_poll(ConnectEvent::Polled), ConnectStep::Call);
        let refused = IoError::Os(system, 111);
        assert_eq!(
            op.poll_poll(ConnectEvent::Called(Err(refused))),
            ConnectStep::Done(Err(refused))
        );
        assert!(!op.poll_connect_started);
        assert_eq!(
            op.poll_poll(ConnectEvent::Called(Err(IoError::Os(system, goes_on)))),
            ConnectStep::ReadSocketError
        );
        assert_eq!(
            op.poll_poll(ConnectEvent::Polled),
            ConnectStep::ReadSocketError
        );
        assert_eq!(op.poll_poll(ConnectEvent::SocketError(Ok(goes_on))), wait);
        assert_eq!(
            op.poll_poll(ConnectEvent::SocketError(Ok(111))),
            ConnectStep::Done(Err(refused))
        );
        assert_eq!(
            op.poll_poll(ConnectEvent::SocketError(Ok(0))),
            ConnectStep::AskPeer
        );
        assert_eq!(
            op.poll_poll(ConnectEvent::Peer(Err(IoError::Os(system, unconnected)))),
            wait
        );
        assert_eq!(
            op.poll_poll(ConnectEvent::Peer(Ok(()))),
            ConnectStep::Done(Ok(()))
        );
    }
    let file = polling(RawOsHandle::Handle(4));
    let (storage, length) = socket_addr_to_raw(file.addresses(), loopback(80));
    let mut op = ConnectOp::new(&file, storage, length as i64).unwrap();
    assert_eq!(
        op.poll_poll(ConnectEvent::Polled),
        ConnectStep::Done(Err(IoError::Message(
            ErrorKind::InvalidInput,
            "invalid raw handle"
        )))
    );
}

#[test]
fn connectex_binds_and_loads_before_it_connects() {
    let mut handle = polling(RawOsHandle::Socket(6));
    handle.completion = true;
    let (storage, length) = socket_addr_to_raw(handle.addresses(), loopback(80));
    let mut op = ConnectOp::new(&handle, storage, length as i64).unwrap();
    assert_eq!(
        op.submit_windows(),
        Ok(WindowsCall::BindUnspecified {
            socket: 6,
            family: 2
        })
    );
    assert_eq!(op.bound(Some(10048)), Err(IoError::Os(System::Windows, 10048)));
    assert_eq!(op.bound(Some(WSAEINVAL)), Ok(()));
    assert_eq!(
        op.submit_windows(),
        Ok(WindowsCall::LoadConnectEx { socket: 6 })
    );
    assert!(op.extension_loaded(Ok(false)).is_err());
    assert_eq!(op.extension_loaded(Ok(true)), Ok(()));
    assert_eq!(
        op.submit_windows(),
        Ok(WindowsCall::ConnectEx {
            socket: 6,
            address_len: 16
        })
    );
    assert_eq!(
        op.poll_completion(Reply::Submitted(CompletionIoResult::Completed(0))),
        Poll::Ready(Ok(Connected::UpdateContext { socket: 6 }))
    );
    let linux = mock();
    let mut op = ConnectOp::new(&linux, storage, length as i64).unwrap();
    assert_eq!(
        op.build_completion_entry(9),
        Ok(CompletionEntry {
            fd: -1,
            opcode: Opcode::Connect { address_len: 16 },
            user_data: 9
        })
    );
    assert_eq!(
        op.poll_completion(Reply::Submitted(CompletionIoResult::Completed(-111))),
        Poll::Ready(Err(IoError::Os(System::Linux, 111)))
    );
    assert_eq!(
        op.poll_completion(Reply::Submitted(CompletionIoResult::Completed(0))),
        Poll::Ready(Ok(Connected::Done))
    );
}

#[test]
fn decoding_preserves_error_codes_and_rejects_unrepresentable_results() {
    for code in [1, 5, 38, 995, i32::MAX] {
        assert_eq!(completion_error(System::Linux, -code).raw_os_error(), Some(code));
    }
    for result in [i32::MIN, 0, 1, i32::MAX] {
        let error = completion_error(System::Linux, result);
        assert_eq!(error.kind(), Some(ErrorKind::InvalidData));
        assert_eq!(error.raw_os_error(), None);
    }
}

#[test]
fn positional_entries_reject_negative_offsets_and_current_position_sentinel() {
    let handle = mock();
    for offset in [i64::MAX as u64 + 1, u64::MAX - 1, u64::MAX] {
        let mut read = ReadAtOp::new(&handle, full(vec![7u8; 4]), offset);
        assert_eq!(
            read.build_completion_entry(1).unwrap_err().kind(),
            Some(ErrorKind::InvalidInput)
        );
        assert_eq!(read.take_bufs().into_vec(), vec![7; 4]);
        let mut write = WriteAtOp::new(&handle, vec![7u8; 4], offset);
        assert_eq!(
            write.build_completion_entry(2).unwrap_err().kind(),
            Some(ErrorKind::InvalidInput)
        );
        assert_eq!(write.take_bufs(), vec![7; 4]);
        assert!(positional_offset(offset).is_err());
    }
    for offset in [0, 1, i64::MAX as u64] {
        assert_eq!(
            ReadAtOp::new(&handle, full(vec![0u8; 1]), offset).build_completion_entry(1),
            Ok(CompletionEntry {
                fd: -1,
                opcode: Opcode::Read { len: 1, offset },
                user_data: 1
            })
        );
        assert_eq!(
            WriteAtOp::new(&handle, vec![0u8; 1], offset).build_completion_entry(2),
            Ok(CompletionEntry {
                fd: -1,
                opcode: Opcode::Write { len: 1, offset },
                user_data: 2
            })
        );
        assert_eq!(positional_offset(offset), Ok(offset));
    }
}

#[test]
fn read_errors_preserve_non_eof_failures() {
    for system in [System::Linux, System::Macos, System::Windows] {
        let error = read_error_result(
            system,
            IoError::Message(ErrorKind::PermissionDenied, "denied"),
        )
        .unwrap_err();
        assert_eq!(error.kind(), Some(ErrorKind::PermissionDenied));
        assert_eq!(error.message(), Some("denied"));
        let error = read_error_result(system, IoError::Os(system, 6)).unwrap_err();
        assert_eq!(error.raw_os_error(), Some(6));
    }
    assert_eq!(read_error_result(System::Windows, IoError::Os(System::Windows, 38)).unwrap(), 0);
    assert_eq!(
        read_error_result(System::Linux, IoError::Os(System::Linux, 38))
            .unwrap_err()
            .raw_os_error(),
        Some(38)
    );
    assert_eq!(
        ERROR_HANDLE_EOF,
        windows_sys::Win32::Foundation::ERROR_HANDLE_EOF as i32
    );
    assert_eq!(
        ERROR_IO_PENDING,
        windows_sys::Win32::Foundation::ERROR_IO_PENDING as i32
    );
}

#[test]
fn windows_reads_return_zero_at_the_end_of_a_file() {
    let mut handle = polling(RawOsHandle::Handle(3));
    handle.completion = true;
    let eof = Reply::Submitted(CompletionIoResult::Completed(-38));
    let mut scalar = ReadOp::new(&handle, full(vec![7u8; 4]));
    assert_eq!(scalar.poll_completion(eof), Poll::Ready(Ok(0)));
    assert!(scalar.take_bufs().into_vec().is_empty());
    for offset in [0, 10] {
        let mut positional = ReadAtOp::new(&handle, full(vec![7u8; 4]), offset);
        assert_eq!(positional.poll_completion(eof), Poll::Ready(Ok(0)));
        assert!(positional.take_bufs().into_vec().is_empty());
    }
    let buffers = vec![vec![7u8; 2], vec![9u8; 2]];
    let mut vectored = ReadvOp::new(&handle, buffers.clone());
    assert_eq!(
        vectored.submit_windows(),
        Ok(WindowsCall::ReadFile { handle: 3, len: 4 })
    );
    assert_eq!(vectored.completion_staging, Some(vec![0; 4]));
    assert_eq!(vectored.poll_completion(eof), Poll::Ready(Ok(0)));
    assert_eq!(vectored.take_bufs(), buffers);
    let linux = mock();
    let mut scalar = ReadOp::new(&linux, full(vec![7u8; 4]));
    assert_eq!(
        scalar.poll_completion(eof),
        Poll::Ready(Err(IoError::Os(System::Linux, 38)))
    );
    assert_eq!(scalar.take_bufs().into_vec(), vec![7; 4]);
}

#[test]
fn windows_writes_are_staged_for_files() {
    let mut handle = polling(RawOsHandle::Handle(3));
    handle.completion = true;
    let buffers = vec![vec![], b"ab".to_vec(), vec![], b"cd".to_vec()];
    let mut write = WritevOp::new(&handle, buffers.clone());
    assert_eq!(
        write.submit_windows(),
        Ok(WindowsCall::WriteFile { handle: 3, len: 4 })
    );
    assert_eq!(write.completion_staging, Some(b"abcd".to_vec()));
    assert_eq!(
        write.poll_completion(Reply::Submitted(CompletionIoResult::Completed(4))),
        Poll::Ready(Ok(4))
    );
    assert_eq!(write.take_bufs(), buffers);
    let mut invalid = WriteAtOp::new(&handle, b"BAD".to_vec(), u64::MAX);
    assert_eq!(
        invalid.submit_windows().unwrap_err().kind(),
        Some(ErrorKind::InvalidInput)
    );
    assert_eq!(invalid.take_bufs(), b"BAD");
    let mut split = WriteAtOp::new(&handle, b"xyz".to_vec(), 0x1_0000_0002);
    assert_eq!(
        split.submit_windows(),
        Ok(WindowsCall::WriteFileAt {
            handle: 3,
            len: 3,
            offset_low: 2,
            offset_high: 1
        })
    );
    let mut split = ReadAtOp::new(&handle, full(vec![0u8; 3]), 0x1_0000_0002);
    assert_eq!(
        split.submit_windows(),
        Ok(WindowsCall::ReadFileAt {
            handle: 3,
            len: 3,
            offset_low: 2,
            offset_high: 1
        })
    );
}

#[test]
fn windows_sockets_take_vectors_as_they_are() {
    let mut handle = polling(RawOsHandle::Socket(8));
    handle.completion = true;
    let buffers = vec![vec![1u8; 2], vec![2u8; 3]];
    let mut read = ReadvOp::new(&handle, buffers.clone());
    assert_eq!(
        read.submit_windows(),
        Ok(WindowsCall::WsaRecvVectored {
            socket: 8,
            count: 2
        })
    );
    assert_eq!(read.completion_staging, None);
    let mut write = WritevOp::new(&handle, buffers);
    assert_eq!(
        write.submit_windows(),
        Ok(WindowsCall::WsaSendVectored {
            socket: 8,
            count: 2
        })
    );
    assert_eq!(
        write.poll_call(),
        Ok(SystemCall::WsaSendVectored {
            socket: 8,
            count: 2
        })
    );
    let mut recv = RecvOp::new_peek(&handle, full(vec![0u8; 5]));
    assert_eq!(
        recv.submit_windows(),
        Ok(WindowsCall::WsaRecv {
            socket: 8,
            len: 5,
            flags: 2
        })
    );
    let mut send = SendOp::new(&handle, b"send".to_vec());
    assert_eq!(
        send.submit_windows(),
        Ok(WindowsCall::WsaSend { socket: 8, len: 4 })
    );
    assert_eq!(overlapped_started(None), Ok(()));
    assert_eq!(overlapped_started(Some(ERROR_IO_PENDING)), Ok(()));
    assert_eq!(overlapped_started(Some(6)), Err(IoError::Os(System::Windows, 6)));
}

#[test]
fn native_iovec_counts_do_not_wrap() {
    for count in [0, 1, 1024, i32::MAX as usize] {
        assert_eq!(iovec_count::<i32>(count).unwrap() as usize, count);
        assert_eq!(iovec_count::<u32>(count).unwrap() as usize, count);
    }
    assert_eq!(
        iovec_count::<i32>(i32::MAX as usize + 1)
            .unwrap_err()
            .kind(),
        Some(ErrorKind::InvalidInput)
    );
    assert_eq!(iovec_count::<u32>(u32::MAX as usize).unwrap(), u32::MAX);
    assert_eq!(
        iovec_count::<u32>(u32::MAX as usize + 1)
            .unwrap_err()
            .kind(),
        Some(ErrorKind::InvalidInput)
    );
}

#[test]
fn completion_entries_name_lengths_and_descriptors() {
    let mut handle = mock();
    handle.handle = RawOsHandle::Fd(6);
    let mut read = ReadOp::new(&handle, full(vec![0u8; 8]));
    assert_eq!(
        read.build_completion_entry(1).unwrap().opcode,
        Opcode::Read { len: 8, offset: 0 }
    );
    let mut recv = RecvOp::new(&handle, full(vec![0u8; 8]));
    assert_eq!(
        recv.build_completion_entry(2).unwrap().opcode,
        Opcode::Recv { len: 8, flags: 0 }
    );
    let mut peek = RecvOp::new_peek(&handle, full(vec![0u8; 8]));
    assert_eq!(
        peek.build_completion_entry(2).unwrap().opcode,
        Opcode::Recv {
            len: 8,
            flags: libc::MSG_PEEK
        }
    );
    let mut send = SendOp::new(&handle, b"send".to_vec());
    assert_eq!(
        send.build_completion_entry(3),
        Ok(CompletionEntry {
            fd: 6,
            opcode: Opcode::Send { len: 4 },
            user_data: 3
        })
    );
    assert_eq!(send.take_bufs(), b"send");
    let mut read = ReadvOp::new(&handle, vec![vec![9u8; 2], vec![9u8; 2]]);
    assert_eq!(
        read.build_completion_entry(5).unwrap().opcode,
        Opcode::Readv { count: 2 }
    );
    let mut write = WritevOp::new(&handle, vec![vec![], b"ab".to_vec(), b"cd".to_vec()]);
    assert_eq!(
        write.build_completion_entry(6).unwrap().opcode,
        Opcode::Writev { count: 3 }
    );
    assert_eq!(write.take_bufs().len(), 3);
    assert_eq!(receive_flags(true), MSG_PEEK);
    assert_eq!(receive_flags(false), 0);
    assert_eq!(MSG_PEEK, libc::MSG_PEEK);
}

#[test]
fn completion_lengths_do_not_wrap() {
    for capacity in [0, 1, 4096, i32::MAX as usize] {
        assert_eq!(completion_len(capacity).unwrap() as usize, capacity);
    }
    for capacity in [i32::MAX as usize + 1, u32::MAX as usize, usize::MAX] {
        assert_eq!(
            completion_len(capacity).unwrap_err().kind(),
            Some(ErrorKind::InvalidInput)
        );
        assert_eq!(
            transfer_len(capacity, "too long"),
            Err(IoError::Message(ErrorKind::InvalidInput, "too long"))
        );
    }
}

#[test]
fn vectored_completion_lengths_fit_the_signed_result() {
    let limit = i32::MAX as usize;
    assert_eq!(
        completion_vectored_len(&[0, limit - 1, 1]).unwrap(),
        limit as u32
    );
    assert_eq!(completion_vectored_len(&[]).unwrap(), 0);
    for lengths in [[limit, 1], [usize::MAX, 1]] {
        assert_eq!(
            completion_vectored_len(&lengths).unwrap_err().kind(),
            Some(ErrorKind::InvalidInput)
        );
    }
    assert_eq!(checked_total(&[limit, 1]), Some(limit + 1));
    assert_eq!(checked_total(&[usize::MAX, 1]), None);
}

#[test]
fn inline_array_keeps_address_through_completion_storage_moves() {
    let mut storage = CompletionBuffer::new([7u8; 32], true);
    let pointer = storage.as_mut().as_ptr();
    let moved = Box::new(storage);
    assert_eq!(CompletionBuffer::as_ref(&moved).as_ptr(), pointer);
    let retained = (*moved).into_stable_box();
    assert_eq!(retained.as_ptr(), pointer);
    assert_eq!(retained.as_ref(), &[7; 32]);
    // Model the type-erased driver payload and eventual acknowledgement.
    let payload: Box<dyn Any> = Box::new(Some(retained));
    let acknowledged = payload
        .downcast::<Option<Box<[u8; 32]>>>()
        .unwrap()
        .unwrap();
    assert_eq!(acknowledged.as_ptr(), pointer);
    assert_eq!(*acknowledged, [7; 32]);
}

#[test]
fn poll_storage_returns_inline_array_without_stability_requirement() {
    let storage = CompletionBuffer::new([5u8; 8], false);
    assert!(matches!(storage, CompletionBuffer::Inline(_)));
    assert_eq!(storage.into_inner(), [5; 8]);
}

#[test]
fn short_read_eof_and_error_preserve_initialized_prefix_contract() {
    let handle = polling(RawOsHandle::Fd(3));
    let mut op = ReadOp::new(&handle, ByteBuf::with_capacity(32));
    assert_eq!(op.poll_call(), Ok(SystemCall::Read { fd: 3, len: 32 }));
    op.buf.as_mut().storage[..3].copy_from_slice(b"abc");
    assert_eq!(op.poll_poll(Ok(3)), Attempt::Done(Ok(3)));
    let buffer = op.take_bufs();
    assert_eq!(buffer.buf_len(), 3);
    let mut op = ReadOp::new(&handle, buffer);
    assert_eq!(op.poll_poll(Ok(0)), Attempt::Done(Ok(0)));
    assert!(op.take_bufs().into_vec().is_empty());
    let mut op = ReadOp::new(&handle, full(b"unchanged".to_vec()));
    assert_eq!(
        op.poll_poll(Err(IoError::Os(System::Linux, libc::EBADF))),
        Attempt::Done(Err(IoError::Os(System::Linux, libc::EBADF)))
    );
    assert_eq!(op.take_bufs().into_vec(), b"unchanged");
}

/// What a cancelled operation left with its driver is the buffer that it was made
/// with, where it was.
fn check_retained(driver: DriverId, token: usize, kept: Vec<u8>, address: usize) {
    assert_eq!(driver, OWNER, "cancellation missed the owning driver");
    assert_eq!(token, 41);
    assert_eq!(kept, [3; 8]);
    assert_eq!(kept.as_ptr() as usize, address);
}

#[test]
fn read_pending_buffer_is_retained_by_owning_driver() {
    let handle = mock();
    let buffer = vec![3u8; 8];
    let address = buffer.as_ptr() as usize;
    let mut op = ReadOp::new(&handle, full(buffer));
    op.completion_token = Some(41);
    let held = op.cancel().unwrap();
    check_retained(held.driver, held.token, (*held.storage).into_vec(), address);
}

#[test]
fn readat_pending_buffer_is_retained_by_owning_driver() {
    let handle = mock();
    let buffer = vec![3u8; 8];
    let address = buffer.as_ptr() as usize;
    let mut op = ReadAtOp::new(&handle, full(buffer), 0);
    op.completion_token = Some(41);
    let held = op.cancel().unwrap();
    check_retained(held.driver, held.token, (*held.storage).into_vec(), address);
}

#[test]
fn readv_pending_buffer_is_retained_by_owning_driver() {
    let handle = mock();
    let buffer = vec![3u8; 8];
    let address = buffer.as_ptr() as usize;
    let mut op = ReadvOp::new(&handle, vec![buffer]);
    op.completion_token = Some(41);
    let mut held = op.cancel().unwrap();
    check_retained(held.driver, held.token, held.storage.bufs.remove(0), address);
}

#[test]
fn recv_pending_buffer_is_retained_by_owning_driver() {
    let handle = mock();
    let buffer = vec![3u8; 8];
    let address = buffer.as_ptr() as usize;
    let mut op = RecvOp::new(&handle, full(buffer));
    op.completion_token = Some(41);
    let held = op.cancel().unwrap();
    check_retained(held.driver, held.token, (*held.storage).into_vec(), address);
}

#[test]
fn recvfrom_pending_buffer_is_retained_by_owning_driver() {
    let handle = mock();
    let buffer = vec![3u8; 8];
    let address = buffer.as_ptr() as usize;
    let mut op = RecvfromOp::new(&handle, full(buffer));
    op.completion_token = Some(41);
    let held = op.cancel().unwrap();
    check_retained(held.driver, held.token, (*held.storage.1).into_vec(), address);
}

#[test]
fn send_pending_buffer_is_retained_by_owning_driver() {
    let handle = mock();
    let buffer = vec![3u8; 8];
    let address = buffer.as_ptr() as usize;
    let mut op = SendOp::new(&handle, buffer);
    op.completion_token = Some(41);
    let held = op.cancel().unwrap();
    check_retained(held.driver, held.token, *held.storage, address);
}

#[test]
fn sendto_pending_buffer_is_retained_by_owning_driver() {
    let handle = mock();
    let buffer = vec![3u8; 8];
    let address = buffer.as_ptr() as usize;
    let mut op = SendtoOp::new(&handle, buffer, loopback(1234));
    op.completion_token = Some(41);
    let held = op.cancel().unwrap();
    check_retained(held.driver, held.token, *held.storage.1, address);
}

#[test]
fn writeat_pending_buffer_is_retained_by_owning_driver() {
    let handle = mock();
    let buffer = vec![3u8; 8];
    let address = buffer.as_ptr() as usize;
    let mut op = WriteAtOp::new(&handle, buffer, 0);
    op.completion_token = Some(41);
    let held = op.cancel().unwrap();
    check_retained(held.driver, held.token, *held.storage, address);
}

#[test]
fn writev_pending_buffer_is_retained_by_owning_driver() {
    let handle = mock();
    let buffer = vec![3u8; 8];
    let address = buffer.as_ptr() as usize;
    let mut op = WritevOp::new(&handle, vec![buffer]);
    op.completion_token = Some(41);
    let mut held = op.cancel().unwrap();
    check_retained(held.driver, held.token, held.storage.bufs.remove(0), address);
}

#[test]
fn short_read_skips_empty_segments_and_preserves_suffix() {
    let mut handle = polling(RawOsHandle::Handle(5));
    handle.completion = true;
    let mut buffers: Vec<Vec<u8>> = [0, 2, 0, 4, 0]
        .into_iter()
        .map(|len| vec![b'_'; len])
        .collect();
    let addresses: Vec<_> = buffers.iter().map(|buf| buf.as_ptr()).collect();
    for payload in [b"abc".as_slice(), b""] {
        let mut op = ReadvOp::new(&handle, buffers);
        assert_eq!(
            op.submit_windows(),
            Ok(WindowsCall::ReadFile { handle: 5, len: 6 })
        );
        op.completion_staging.as_mut().unwrap()[..payload.len()].copy_from_slice(payload);
        assert_eq!(
            op.poll_completion(Reply::Submitted(CompletionIoResult::Completed(
                payload.len() as i32
            ))),
            Poll::Ready(Ok(payload.len()))
        );
        buffers = op.take_bufs();
        assert_eq!(&*buffers[1], b"ab");
        assert_eq!(&*buffers[3], b"c___");
        assert_eq!(
            buffers.iter().map(|buf| buf.len()).collect::<Vec<_>>(),
            [0, 2, 0, 4, 0]
        );
        assert_eq!(
            buffers.iter().map(|buf| buf.as_ptr()).collect::<Vec<_>>(),
            addresses
        );
    }
}

#[test]
fn vectors_are_gathered_and_scattered_in_order() {
    let mut bufs = vec![vec![1u8, 2], vec![], vec![3]];
    assert_eq!(segment_lengths(&bufs), [2, 0, 1]);
    assert_eq!(gather(&bufs), [1, 2, 3]);
    scatter(&mut bufs, &[9, 8, 7], 2);
    assert_eq!(bufs, [vec![9, 8], vec![], vec![3]]);
    scatter(&mut bufs, &[9, 8, 7], 3);
    assert_eq!(gather(&bufs), [9, 8, 7]);
}

#[test]
fn io_uring_vectored_read_write_pipe() {
    let handle = mock();
    let a = b"hello ";
    let b = b"world!";
    let total_len = a.len() + b.len();
    let mut write = WritevOp::new(&handle, vec![a.to_vec(), b.to_vec()]);
    assert_eq!(
        write.build_completion_entry(1).unwrap().opcode,
        Opcode::Writev { count: 2 }
    );
    // The kernel takes the bytes of all segments.
    let pipe = gather(&write.bufs);
    let written = match write.poll_completion(Reply::Submitted(CompletionIoResult::Completed(
        pipe.len() as i32,
    ))) {
        Poll::Ready(Ok(written)) => written,
        other => panic!("writev failed: {other:?}"),
    };
    assert_eq!(written, total_len);
    let mut read = ReadvOp::new(&handle, vec![vec![0u8; 3], vec![0u8; total_len - 3]]);
    assert_eq!(
        read.build_completion_entry(2).unwrap().opcode,
        Opcode::Readv { count: 2 }
    );
    scatter(&mut read.bufs, &pipe, pipe.len());
    assert_eq!(
        read.poll_completion(Reply::Submitted(CompletionIoResult::Completed(
            pipe.len() as i32
        ))),
        Poll::Ready(Ok(total_len))
    );
    assert_eq!(
        read.take_bufs(),
        [b"hel".to_vec(), b"lo world!".to_vec()]
    );
}

#[test]
fn polling_datagrams_preserve_peek_address_and_empty_packet() {
    let handle = polling(RawOsHandle::Fd(4));
    let source = loopback(4242);
    let (storage, length) = socket_addr_to_raw(handle.addresses(), source);
    let mut buffer = ByteBuf::with_capacity(32);
    for payload in [b"abc".as_slice(), b"", b"after empty"] {
        for peek in [true, false] {
            let mut op = if peek {
                RecvfromOp::new_peek(&handle, buffer)
            } else {
                RecvfromOp::new(&handle, buffer)
            };
            assert_eq!(
                op.poll_call(),
                Ok(SystemCall::RecvFrom {
                    fd: 4,
                    len: 32,
                    flags: if peek { 2 } else { 0 }
                })
            );
            assert_eq!(
                op.poll_poll(Err(IoError::Os(System::Linux, libc::EAGAIN))),
                Attempt::AwaitReadiness(Interest::Readable)
            );
            op.buf.as_mut().storage[..payload.len()].copy_from_slice(payload);
            assert_eq!(
                op.poll_poll(Ok((payload.len(), storage, length))),
                Attempt::Done(Ok((payload.len(), source)))
            );
            buffer = op.take_bufs();
            assert_eq!(&buffer.storage[..buffer.buf_len()], payload);
        }
    }
}

#[test]
fn reused_recvmsg_state_resets_metadata_and_keeps_stable_addresses() {
    let handle = mock();
    let mut op = RecvfromOp::new(&handle, ByteBuf::with_capacity(32));
    assert_eq!(
        op.build_completion_entry(1).unwrap().opcode,
        Opcode::RecvMsg { flags: 0 }
    );
    let state = op.completion_state.as_mut().unwrap();
    let state_address = format!("{:p}", &**state);
    let address_storage = state.address.as_ptr();
    let capacity = state.transfer_len;
    assert_eq!(capacity, 32);
    // Model output fields changed by a completed receive. Rebuilding must
    // restore the supplied sizes and remove obsolete ancillary-data state.
    state.address_len = 0;
    state.vectors = 0;
    state.flags = libc::MSG_TRUNC;
    state.control_len = 1;
    op.build_completion_entry(2).unwrap();
    let state = op.completion_state.as_ref().unwrap();
    assert_eq!(format!("{:p}", &**state), state_address);
    assert_eq!(state.address.as_ptr(), address_storage);
    assert_eq!(state.transfer_len, capacity);
    assert_eq!(state.address_len, 128);
    assert_eq!(state.vectors, 1);
    assert_eq!(state.flags, 0);
    assert_eq!(state.control_len, 0);
}

#[test]
fn completed_datagrams_carry_their_source() {
    let handle = mock();
    let mut op = RecvfromOp::new(&handle, ByteBuf::with_capacity(8));
    op.build_completion_entry(1).unwrap();
    let (storage, length) = socket_addr_to_raw(handle.addresses(), loopback(99));
    assert_eq!(
        op.poll_completion(Reply::Submitted(CompletionIoResult::Retry(5))),
        Poll::Pending
    );
    let state = op.completion_state.as_mut().unwrap();
    state.address = storage;
    state.address_len = length;
    op.buf.as_mut().storage[..2].copy_from_slice(b"hi");
    assert_eq!(
        op.poll_completion(Reply::Collected(Some(2))),
        Poll::Ready(Ok((2, loopback(99))))
    );
    assert_eq!(op.take_bufs().into_vec(), b"hi");
}

#[test]
fn rebuilt_send_header_resets_metadata_and_preserves_storage() {
    let handle = mock();
    let mut op = SendtoOp::new(&handle, vec![1, 2, 3], loopback(1234));
    assert_eq!(
        op.build_completion_entry(1).unwrap().opcode,
        Opcode::SendMsg
    );
    let payload_pointer = CompletionBuffer::as_ref(&op.buf).as_ptr();
    let state = op.completion_state.as_mut().unwrap();
    let state_pointer = format!("{:p}", &**state);
    state.address_len = 0;
    state.vectors = 0;
    state.control_len = 1;
    state.flags = libc::MSG_TRUNC;
    op.build_completion_entry(2).unwrap();
    assert_eq!(
        CompletionBuffer::as_ref(&op.buf).as_ptr(),
        payload_pointer
    );
    let state = op.completion_state.as_ref().unwrap();
    assert_eq!(format!("{:p}", &**state), state_pointer);
    assert_eq!(state.transfer_len, 3);
    let (storage, length) = socket_addr_to_raw(handle.addresses(), loopback(1234));
    assert_eq!(state.address, storage);
    assert_eq!(state.address_len, length);
    assert_eq!(state.vectors, 1);
    assert_eq!(state.control_len, 0);
    assert_eq!(state.flags, 0);
}

#[test]
fn descriptors_are_marked_to_be_closed_on_exec() {
    assert_eq!(FD_CLOEXEC, libc::FD_CLOEXEC);
    assert_eq!(set_cloexec(Ok(0)), CloexecStep::SetFlags(1));
    assert_eq!(set_cloexec(Ok(4)), CloexecStep::SetFlags(5));
    assert_eq!(set_cloexec(Ok(5)), CloexecStep::Done(Ok(())));
    assert_eq!(
        set_cloexec(Err(IoError::Os(System::Linux, 9))),
        CloexecStep::Done(Err(IoError::Os(System::Linux, 9)))
    );
    assert_eq!(retry_interrupted::<u8>(Err(IoError::Os(System::Linux, libc::EINTR))), None);
    assert_eq!(
        retry_interrupted::<u8>(Err(IoError::Os(System::Linux, 9))),
        Some(Err(IoError::Os(System::Linux, 9)))
    );
    assert_eq!(retry_interrupted(Ok(3)), Some(Ok(3)));
}

/// A descriptor that closes when it is dropped.
type Fd = Arc<i32>;

#[test]
fn queued_splice_survives_cancellation_and_closing_original_descriptors() {
    let mut handle = mock();
    handle.handle = RawOsHandle::Fd(11);
    let mut driver = MockDriver::default();
    let mut op: SpliceOp<Fd, ()> = SpliceOp::new(10, &handle, 1);
    let (input, output) = (Arc::new(20), Arc::new(21));
    let alive = (Arc::downgrade(&input), Arc::downgrade(&output));
    op.keep_duplicates(Ok((input, 20)), Ok((output, 21)))
        .unwrap();
    op.build_completion_entry(7).unwrap();
    assert_eq!(
        op.poll_completion(Reply::Submitted(CompletionIoResult::Retry(7))),
        Poll::Pending
    );
    // The entry still names the duplicates, which stay open until it is over.
    driver.retain(op.cancel());
    assert!(alive.0.upgrade().is_some() && alive.1.upgrade().is_some());
    assert_eq!(driver.ignored[0].0, 7);
    drop(driver);
    assert!(alive.0.upgrade().is_none() && alive.1.upgrade().is_none());
}

#[test]
fn cancelled_completion_retains_both_descriptors_on_its_owner() {
    let mut handle = mock();
    handle.handle = RawOsHandle::Fd(11);
    let mut op: SpliceOp<&str, ()> = SpliceOp::new(10, &handle, 1);
    assert!(op.needs_duplicates());
    op.keep_duplicates(Ok(("input", 20)), Ok(("output", 21)))
        .unwrap();
    assert!(!op.needs_duplicates());
    let entry = op.build_completion_entry(7).unwrap();
    assert_eq!(
        entry,
        CompletionEntry {
            fd: 21,
            opcode: Opcode::Splice {
                from: 20,
                offset_in: -1,
                offset_out: -1,
                len: 1
            },
            user_data: 7
        }
    );
    assert_eq!(op.build_completion_entry(7), Ok(entry));
    op.completion_token = Some(7);
    let held = op.cancel().unwrap();
    assert_eq!((held.driver, held.token), (OWNER, 7));
    let duplicates = held.storage.unwrap();
    assert_eq!(
        [duplicates.source_fd, duplicates.destination_fd],
        [20, 21]
    );
    assert_eq!(
        [duplicates.source, duplicates.destination],
        ["input", "output"]
    );
}

#[test]
fn invalid_completion_descriptors_fail_without_retained_storage() {
    let handle = mock();
    let bad = IoError::Os(System::Linux, libc::EBADF);
    for source in [Err(bad), Ok(("input", 20))] {
        let mut op: SpliceOp<&str, ()> = SpliceOp::new(-1, &handle, 1);
        let error = op.keep_duplicates(source, Err(bad)).unwrap_err();
        assert_eq!(error.raw_os_error(), Some(libc::EBADF));
        assert!(op.completion_fds.is_none());
        assert!(op.completion_token.is_none());
    }
}

#[test]
fn empty_source_waits_for_input_not_writable_destination() {
    let handle = polling(RawOsHandle::Fd(11));
    let mut op: SpliceOp<(), &str> = SpliceOp::new(10, &handle, 1);
    assert_eq!(
        op.poll_call(),
        Ok(SystemCall::Splice {
            from: 10,
            to: 11,
            len: 1,
            flags: libc::SPLICE_F_NONBLOCK
        })
    );
    assert_eq!(SPLICE_F_NONBLOCK, libc::SPLICE_F_NONBLOCK);
    let blocked = SpliceEvent::Called(Err(IoError::Os(System::Linux, libc::EAGAIN)));
    assert_eq!(op.poll_poll(blocked), SpliceStep::AskSource);
    assert_eq!(
        op.poll_poll(SpliceEvent::SourceReady(Ok(false))),
        SpliceStep::RegisterSource
    );
    assert_eq!(
        op.poll_poll(SpliceEvent::SourceRegistered(Ok("source"))),
        SpliceStep::AwaitSource
    );
    // A second wait uses the registration that is there.
    assert_eq!(
        op.poll_poll(SpliceEvent::SourceReady(Ok(false))),
        SpliceStep::AwaitSource
    );
    assert_eq!(
        op.poll_poll(SpliceEvent::Called(Ok(1))),
        SpliceStep::Done(Ok(1))
    );
}

#[test]
fn full_destination_waits_for_output_with_ready_input() {
    let handle = polling(RawOsHandle::Fd(11));
    let mut op: SpliceOp<(), &str> = SpliceOp::new(10, &handle, 1);
    let blocked = SpliceEvent::Called(Err(IoError::Os(System::Linux, libc::EAGAIN)));
    assert_eq!(op.poll_poll(blocked), SpliceStep::AskSource);
    assert_eq!(
        op.poll_poll(SpliceEvent::SourceReady(Ok(true))),
        SpliceStep::AwaitDestination
    );
    assert!(op.source_registration.is_none());
    assert_eq!(
        op.poll_poll(SpliceEvent::Called(Ok(1))),
        SpliceStep::Done(Ok(1))
    );
}

#[test]
fn cancelled_source_waiter_is_removed_and_eof_wakes_its_replacement() {
    let handle = polling(RawOsHandle::Fd(11));
    let registration = Arc::new(());
    let weak = Arc::downgrade(&registration);
    let mut op: SpliceOp<(), Arc<()>> = SpliceOp::new(10, &handle, 1);
    assert_eq!(
        op.poll_poll(SpliceEvent::SourceRegistered(Ok(registration))),
        SpliceStep::AwaitSource
    );
    assert!(weak.upgrade().is_some());
    assert!(op.cancel().is_none());
    assert!(weak.upgrade().is_none());
    let mut op: SpliceOp<(), Arc<()>> = SpliceOp::new(10, &handle, 1);
    assert_eq!(
        op.poll_poll(SpliceEvent::SourceReady(Ok(false))),
        SpliceStep::RegisterSource
    );
    assert_eq!(
        op.poll_poll(SpliceEvent::Called(Ok(0))),
        SpliceStep::Done(Ok(0))
    );
    assert_eq!(
        op.poll_poll(SpliceEvent::SourceReady(Err(IoError::Os(System::Linux, 9)))),
        SpliceStep::Done(Err(IoError::Os(System::Linux, 9)))
    );
}

#[test]
fn oversized_splice_requests_do_not_wrap_to_zero() {
    let handle = mock();
    for len in [
        0,
        17,
        u32::MAX as usize,
        (u32::MAX as usize).saturating_add(1),
        usize::MAX,
    ] {
        let op: SpliceOp<(), ()> = SpliceOp::new(3, &handle, len);
        assert_eq!(op.len, len.min(u32::MAX as usize));
    }
}

#[test]
fn statx_paths_are_retained_by_the_submitting_driver() {
    let mut op = StatxOp::new(
        OWNER,
        libc::AT_FDCWD,
        b"from".to_vec(),
        0,
        libc::STATX_ALL,
    );
    assert_eq!(
        op.request_on(DriverId(2)).unwrap_err().kind(),
        Some(ErrorKind::InvalidInput)
    );
    assert!(op.completion_token.is_none());
    assert_eq!(op.request_on(OWNER), Ok(Request::Submit));
    assert_eq!(
        op.build_completion_entry(41).unwrap(),
        CompletionEntry {
            fd: libc::AT_FDCWD,
            opcode: Opcode::Statx {
                flags: 0,
                mask: libc::STATX_ALL
            },
            user_data: 41
        }
    );
    let address = op.pathname.as_ptr();
    let result_address = op.statxbuf.as_ref().unwrap().as_ptr();
    op.completion_token = Some(41);
    let held = op.cancel().unwrap();
    assert_eq!((held.driver, held.token), (OWNER, 41));
    assert_eq!(held.storage.0.as_ptr(), address);
    assert_eq!(held.storage.0, b"from");
    assert_eq!(held.storage.1.unwrap().as_ptr(), result_address);
}

#[test]
fn unlink_paths_are_retained_by_the_submitting_driver() {
    let mut op = UnlinkOp::new(OWNER, b"from".to_vec(), false);
    assert_eq!(
        op.request_on(DriverId(2)).unwrap_err().kind(),
        Some(ErrorKind::InvalidInput)
    );
    assert!(op.completion_token.is_none());
    assert_eq!(
        op.build_completion_entry(41).unwrap().opcode,
        Opcode::UnlinkAt { flags: 0 }
    );
    let address = op.path.as_ptr();
    op.completion_token = Some(41);
    assert_eq!(op.request_on(OWNER), Ok(Request::Collect(41)));
    let held = op.cancel().unwrap();
    assert_eq!((held.driver, held.token), (OWNER, 41));
    assert_eq!(held.storage.as_ptr(), address);
    assert_eq!(held.storage, b"from");
    let mut directory = UnlinkOp::new(OWNER, b"dir".to_vec(), true);
    assert_eq!(
        directory.build_completion_entry(1).unwrap().opcode,
        Opcode::UnlinkAt {
            flags: libc::AT_REMOVEDIR
        }
    );
    assert_eq!(AT_REMOVEDIR, libc::AT_REMOVEDIR);
    assert_eq!(
        directory.poll_completion(Reply::Submitted(CompletionIoResult::Completed(-2))),
        Poll::Ready(Err(IoError::Os(System::Linux, 2)))
    );
    assert_eq!(
        directory.poll_completion(Reply::Submitted(CompletionIoResult::Completed(0))),
        Poll::Ready(Ok(()))
    );
}

#[test]
fn open_paths_are_retained_by_the_submitting_driver() {
    let mut op = OpenOp::new(OWNER, b"from".to_vec(), libc::O_RDONLY, 0);
    let error = op.request_on(DriverId(2)).unwrap_err();
    assert_eq!(error.kind(), Some(ErrorKind::InvalidInput));
    assert_eq!(
        error.message(),
        Some("operation belongs to a different driver")
    );
    assert!(op.completion_token.is_none());
    assert_eq!(
        op.build_completion_entry(41).unwrap().fd,
        libc::AT_FDCWD
    );
    assert_eq!(AT_FDCWD, libc::AT_FDCWD);
    let address = op.path.as_ptr();
    op.completion_token = Some(41);
    let held = op.cancel().unwrap();
    assert_eq!((held.driver, held.token), (OWNER, 41));
    assert_eq!(held.storage.as_ptr(), address);
    assert_eq!(held.storage, b"from");
}

#[test]
fn running_child_stays_pending_until_exit() {
    let mut op: WaitPidOp<&str> = WaitPidOp::new(321);
    assert_eq!(op.poll(WaitEvent::Polled), WaitStep::Open { pid: 321 });
    assert_eq!(
        op.poll(WaitEvent::Opened(Ok("pidfd"))),
        WaitStep::Reap { pid: 321 }
    );
    let running = reap_result(Ok(0), 0);
    assert_eq!(
        running.unwrap_err().message(),
        Some("child has not exited yet")
    );
    // A spurious wake does not complete the operation.
    for _ in 0..2 {
        assert_eq!(
            op.poll(WaitEvent::Reaped(running)),
            WaitStep::AwaitReadiness(Interest::Readable)
        );
        assert_eq!(op.poll(WaitEvent::Armed(Ok(()))), WaitStep::Pending);
        assert_eq!(op.poll(WaitEvent::Polled), WaitStep::Reap { pid: 321 });
    }
    assert_eq!(
        op.poll(WaitEvent::Reaped(reap_result(Ok(321), 7 << 8))),
        WaitStep::Ready(Ok(7 << 8))
    );
    match op.poll(WaitEvent::Polled) {
        WaitStep::Ready(Err(error)) => {
            assert_eq!(error.message(), Some("WaitPidOp already completed"));
            assert_eq!(error.kind(), Some(ErrorKind::Other));
        }
        other => panic!("unexpected step {other:?}"),
    }
    let mut failed: WaitPidOp<&str> = WaitPidOp::new(321);
    assert_eq!(
        failed.poll(WaitEvent::Opened(Err(IoError::Os(System::Linux, 38)))),
        WaitStep::Ready(Err(IoError::Os(System::Linux, 38)))
    );
    assert_eq!(failed.poll(WaitEvent::Polled), WaitStep::Open { pid: 321 });
    assert_eq!(
        reap_result(Err(IoError::Os(System::Linux, libc::ECHILD)), 0),
        Err(IoError::Os(System::Linux, libc::ECHILD))
    );
}

#[test]
fn windows_append_sentinel_is_not_a_positional_offset() {
    for offset in [
        0,
        1,
        u32::MAX as u64,
        1 << 32,
        i64::MAX as u64,
        u64::MAX - 1,
    ] {
        validate_windows_write_offset(offset).unwrap();
    }
    assert_eq!(
        validate_windows_write_offset(u64::MAX).unwrap_err().kind(),
        Some(ErrorKind::InvalidInput)
    );
}

#[test]
fn cancelled_write_retains_descriptor_array_and_payload_addresses() {
    let handle = mock();
    let mut driver = MockDriver::default();
    let buffers = vec![vec![], b"payload".to_vec()];
    let payload = buffers[1].as_ptr();
    let mut op = WritevOp::new(&handle, buffers);
    op.build_completion_entry(41).unwrap();
    let descriptors = op.completion_system_iovecs.as_ref().unwrap().as_ptr();
    op.completion_token = Some(41);
    let held = op.cancel().unwrap();
    assert_eq!(held.token, 41);
    let iovecs = held.storage.iovecs.as_ref().unwrap();
    assert_eq!(iovecs.as_ptr(), descriptors);
    assert_eq!(iovecs.len(), 2);
    assert_eq!(iovecs[0], 0);
    assert_eq!(iovecs[1], 7);
    assert_eq!(held.storage.bufs[1].as_ptr(), payload);
    assert_eq!(&*held.storage.bufs[1], b"payload");
    driver.retain(Some(held));
    assert_eq!(driver.ignored.len(), 1);
}

#[test]
fn cancelled_file_write_retains_staging_allocation() {
    let handle = mock();
    let mut op = WritevOp::new(&handle, vec![b"payload".to_vec()]);
    let staging = b"payload".to_vec();
    let ptr = staging.as_ptr();
    op.completion_staging = Some(staging);
    op.completion_token = Some(41);
    let held = op.cancel().unwrap();
    assert_eq!(held.token, 41);
    let staging = held.storage.staging.as_ref().unwrap();
    assert_eq!(staging.as_ptr(), ptr);
    assert_eq!(staging, b"payload");
    assert_eq!(&*held.storage.bufs[0], b"payload");
}

#[test]
fn operations_are_pending_exactly_while_they_are_queued() {
    let handle = mock();
    let mut op = SendOp::new(&handle, b"send".to_vec());
    assert_eq!(op.mode(true), Mode::Completion);
    assert_eq!(op.mode(false), Mode::Polling);
    assert_eq!(op.request(), Request::Submit);
    assert_eq!(
        op.poll_completion(Reply::Submitted(CompletionIoResult::SubmitErr(IoError::Os(System::Linux, 
            libc::EBUSY
        )))),
        Poll::Ready(Err(IoError::Os(System::Linux, libc::EBUSY)))
    );
    assert_eq!(op.completion_token(), None);
    assert_eq!(
        op.poll_completion(Reply::Submitted(CompletionIoResult::Retry(6))),
        Poll::Pending
    );
    assert_eq!(op.request(), Request::Collect(6));
    assert_eq!(
        op.poll_completion(Reply::Collected(None)),
        Poll::Pending
    );
    assert_eq!(op.completion_token(), Some(6));
    assert_eq!(
        op.poll_completion(Reply::Collected(Some(4))),
        Poll::Ready(Ok(4))
    );
    assert_eq!(op.completion_token(), None);
    assert_eq!(transfer_result(System::Linux, -32), Err(IoError::Os(System::Linux, 32)));
    assert_eq!(transfer_result(System::Linux, 7), Ok(7));
    assert_eq!(
        readiness_registered::<u8>(Err(IoError::Os(System::Linux, 12))),
        Poll::Ready(Err(IoError::Os(System::Linux, 12)))
    );
    assert_eq!(readiness_registered::<u8>(Ok(())), Poll::Pending);
}

#[test]
fn operations_refuse_what_they_cannot_do() {
    let handle = mock();
    let mut op = OpenOp::new(OWNER, b"f".to_vec(), 0, 0);
    let polling_error = op.poll_call().unwrap_err();
    assert_eq!(polling_error.kind(), Some(ErrorKind::Unsupported));
    assert!(op.submit_windows().is_err());
    let mut read = ReadOp::new(&handle, full(vec![0u8; 1]));
    assert_eq!(
        read.submit_windows().unwrap_err().kind(),
        Some(ErrorKind::Unsupported)
    );
    let file = polling(RawOsHandle::Handle(1));
    let read = ReadOp::new(&file, full(vec![0u8; 1]));
    assert_eq!(
        read.poll_call(),
        Err(IoError::Message(
            ErrorKind::Unsupported,
            "poll-based read currently supports sockets only on Windows"
        ))
    );
}

#[test]
fn codes_mean_what_their_platform_says() {
    assert!(IoError::Os(System::Linux, libc::EAGAIN).is_would_block());
    assert!(IoError::Os(System::Linux, libc::EINTR).is_interrupted());
    assert!(IoError::Os(System::Windows, WinSock::WSAEWOULDBLOCK).is_would_block());
    assert!(!IoError::Os(System::Windows, libc::EAGAIN).is_would_block());
    // A call of Windows is never interrupted.
    for code in [libc::EINTR, WinSock::WSAEINTR] {
        assert!(!IoError::Os(System::Windows, code).is_interrupted());
    }
    assert_eq!(System::Windows.interrupted(), None);
    assert!(IoError::Os(System::Macos, 35).is_would_block());
    assert!(!IoError::Os(System::Macos, 11).is_would_block());
    for system in [System::Linux, System::Macos] {
        assert_eq!(system.interrupted(), Some(libc::EINTR));
    }
    let linux = System::Linux;
    assert_eq!(
        [
            linux.would_block(),
            linux.in_progress(),
            linux.already(),
            linux.not_connected()
        ],
        [
            libc::EAGAIN,
            libc::EINPROGRESS,
            libc::EALREADY,
            libc::ENOTCONN
        ]
    );
    let windows = System::Windows;
    assert_eq!(
        [
            windows.would_block(),
            windows.in_progress(),
            windows.already(),
            windows.not_connected()
        ],
        [
            WinSock::WSAEWOULDBLOCK,
            WinSock::WSAEINPROGRESS,
            WinSock::WSAEALREADY,
            WinSock::WSAENOTCONN
        ]
    );
    assert!(linux.timed_out(libc::ETIMEDOUT) && System::Macos.timed_out(60));
    for code in [
        WinSock::WSAETIMEDOUT,
        Foundation::ERROR_SEM_TIMEOUT as i32,
        Foundation::WAIT_TIMEOUT as i32,
        Foundation::ERROR_DRIVER_CANCEL_TIMEOUT as i32,
        Foundation::ERROR_OPERATION_ABORTED as i32,
        Foundation::ERROR_SERVICE_REQUEST_TIMEOUT as i32,
        Foundation::ERROR_COUNTER_TIMEOUT as i32,
        Foundation::ERROR_TIMEOUT as i32,
        Foundation::ERROR_RESOURCE_CALL_TIMED_OUT as i32,
        Foundation::ERROR_CTX_MODEM_RESPONSE_TIMEOUT as i32,
        Foundation::ERROR_CTX_CLIENT_QUERY_TIMEOUT as i32,
        Foundation::FRS_ERR_SYSVOL_POPULATE_TIMEOUT,
        Foundation::ERROR_DS_TIMELIMIT_EXCEEDED as i32,
        Foundation::DNS_ERROR_RECORD_TIMED_OUT as i32,
        Foundation::ERROR_IPSEC_IKE_TIMED_OUT as i32,
        Foundation::ERROR_RUNLEVEL_SWITCH_TIMEOUT as i32,
        Foundation::ERROR_RUNLEVEL_SWITCH_AGENT_TIMEOUT as i32,
    ] {
        assert!(windows.timed_out(code));
        assert!(!System::Macos.timed_out(code));
    }
    for code in [libc::ETIMEDOUT, 60, 0] {
        assert!(!windows.timed_out(code));
    }
    assert!(IoError::Simple(ErrorKind::WouldBlock).is_would_block());
    assert!(IoError::Message(ErrorKind::Interrupted, "signal").is_interrupted());
    assert_eq!(IoError::Simple(ErrorKind::Other).message(), None);
}

#[test]
fn failed_completions_carry_codes_of_the_system_of_their_handle() {
    for (raw, unix, system) in [
        (RawOsHandle::Fd(3), Unix::Linux, System::Linux),
        (RawOsHandle::Fd(3), Unix::Macos, System::Macos),
        (RawOsHandle::Socket(3), Unix::Linux, System::Windows),
    ] {
        let mut handle = polling(raw);
        handle.unix = unix;
        for code in [4, 10004] {
            let failed = Reply::Submitted(CompletionIoResult::Completed(-code));
            let error = IoError::Os(system, code);
            assert_eq!(
                error.is_interrupted(),
                code == 4 && system != System::Windows
            );
            let buffer = || ByteBuf::with_capacity(4);
            assert_eq!(
                ReadOp::new(&handle, buffer()).poll_completion(failed),
                Poll::Ready(Err(error))
            );
            assert_eq!(
                ReadAtOp::new(&handle, buffer(), 0).poll_completion(failed),
                Poll::Ready(Err(error))
            );
            assert_eq!(
                RecvOp::new(&handle, buffer()).poll_completion(failed),
                Poll::Ready(Err(error))
            );
            assert_eq!(
                RecvfromOp::new(&handle, buffer()).poll_completion(failed),
                Poll::Ready(Err(error))
            );
            assert_eq!(
                SendOp::new(&handle, vec![1u8]).poll_completion(failed),
                Poll::Ready(Err(error))
            );
            assert_eq!(
                WritevOp::new(&handle, vec![vec![1u8]]).poll_completion(failed),
                Poll::Ready(Err(error))
            );
            assert_eq!(
                ReadvOp::new(&handle, vec![vec![1u8]]).poll_completion(failed),
                Poll::Ready(Err(error))
            );
            let (storage, length) = socket_addr_to_raw(handle.addresses(), loopback(80));
            let mut connect = ConnectOp::new(&handle, storage, length as i64).unwrap();
            assert_eq!(connect.poll_completion(failed), Poll::Ready(Err(error)));
        }
    }
}

#[test]
fn receives_use_all_the_room_of_a_buffer() {
    let handle = mock();
    let mut buffer = ByteBuf::with_capacity(8);
    assert_eq!(buffer.buf_len(), 0);
    let mut read = ReadOp::new(&handle, buffer);
    assert_eq!(
        read.build_completion_entry(1).unwrap().opcode,
        Opcode::Read { len: 8, offset: 0 }
    );
    read.buf.as_mut().storage[0] = b'x';
    assert_eq!(
        read.poll_completion(Reply::Submitted(CompletionIoResult::Completed(1))),
        Poll::Ready(Ok(1))
    );
    buffer = read.take_bufs();
    assert_eq!(buffer.into_vec(), b"x");
}

#[test]
fn completed_recvfrom_is_refused_where_there_is_none() {
    for result in [0, 2, 9] {
        let mut handle = polling(RawOsHandle::Fd(3));
        handle.unix = Unix::Macos;
        let mut op = RecvfromOp::new(&handle, full(b"kept".to_vec()));
        assert_eq!(
            op.poll_completion(Reply::Submitted(CompletionIoResult::Completed(result))),
            Poll::Ready(Err(IoError::Message(
                ErrorKind::Unsupported,
                "completion-based recvfrom is unsupported on this Unix platform"
            )))
        );
        assert_eq!(op.take_bufs().into_vec(), b"kept");
    }
}

#[test]
fn received_buffers_stay_boxed_in_completion_mode() {
    for completion in [false, true] {
        let mut handle = mock();
        handle.completion = completion;
        let mut read = ReadOp::new(&handle, ByteBuf::with_capacity(4));
        assert_eq!(
            read.poll_completion(Reply::Submitted(CompletionIoResult::Completed(2))),
            Poll::Ready(Ok(2))
        );
        assert_eq!(matches!(read.buf, CompletionBuffer::Boxed(_)), completion);
    }
}
