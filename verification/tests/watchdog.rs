//! Driving operations to their end, and complete transfers.

use rsloop_vibeio::clock::{Duration, Instant};
use rsloop_vibeio::error::{ErrorKind, IoError};
use rsloop_vibeio::poll::Poll;
use rsloop_vibeio::watchdog::{
    assert_eof, drive_until, poll_io, watchdog_deadline, DriveStep, EofStep, Progress, ReadExact,
    TransferStep, WriteAll, WATCHDOG_NANOS, WATCHDOG_SECS,
};
use rsloop_vibeio::system::System;

fn now() -> Instant {
    Instant::from_parts(10, 0)
}

/// Drive an operation to its end, at a standing clock.
fn driven<T>(
    mut poll: impl FnMut() -> Poll<Result<T, IoError>>,
    mut drive: impl FnMut(),
) -> Result<T, IoError> {
    let deadline = watchdog_deadline(now());
    loop {
        match poll_io(poll(), now(), deadline) {
            DriveStep::Done(result) => return result,
            DriveStep::Drive => drive(),
        }
    }
}

#[test]
fn poll_io_retries_pending_and_interrupted_but_preserves_terminal_errors() {
    let mut outcomes = [
        Poll::Pending,
        Poll::Ready(Err(IoError::Simple(ErrorKind::Interrupted))),
        Poll::Ready(Ok(42)),
    ]
    .into_iter();
    let mut waits = 0;
    assert_eq!(
        driven(|| outcomes.next().unwrap(), || waits += 1).unwrap(),
        42
    );
    assert_eq!(waits, 2);
    let error = driven::<()>(
        || Poll::Ready(Err(IoError::Os(System::Linux, 1234))),
        || panic!("terminal errors must not be retried"),
    )
    .unwrap_err();
    assert_eq!(error.raw_os_error(), Some(1234));
}

#[test]
fn operations_end_with_their_time() {
    let deadline = watchdog_deadline(now());
    assert_eq!(
        deadline.saturating_duration_since(now()),
        Duration::from_secs(WATCHDOG_SECS)
    );
    assert_eq!(
        Duration::from_secs(WATCHDOG_SECS).as_nanos(),
        WATCHDOG_NANOS as u128
    );
    match poll_io::<u8>(Poll::Pending, deadline, deadline) {
        DriveStep::Done(Err(error)) => {
            assert_eq!(error.kind(), Some(ErrorKind::TimedOut));
            assert_eq!(error.message(), Some("native operation exceeded watchdog"));
        }
        _ => panic!("the time is up"),
    }
    // A result that came in time is not looked at twice.
    assert!(matches!(
        poll_io(Poll::Ready(Ok(1u8)), deadline, deadline),
        DriveStep::Done(Ok(1))
    ));
}

#[test]
fn progress_is_looked_for_until_the_time_is_up() {
    let deadline = watchdog_deadline(now());
    assert_eq!(drive_until(true, deadline, deadline), Progress::Happened);
    assert_eq!(drive_until(false, now(), deadline), Progress::Drive);
    assert_eq!(drive_until(false, deadline, deadline), Progress::Overdue);
}

#[test]
fn eof_check_tolerates_interruption_and_deferred_release() {
    let mut reads = 0;
    let deadline = watchdog_deadline(now());
    loop {
        reads += 1;
        let read = match reads {
            1 => Err(IoError::Simple(ErrorKind::Interrupted)),
            2 => Err(IoError::Simple(ErrorKind::WouldBlock)),
            _ => Ok(0),
        };
        match assert_eof(read, now(), deadline) {
            EofStep::Reached => break,
            EofStep::Retry => {}
            other => panic!("unexpected step {other:?}"),
        }
    }
    assert_eq!(reads, 3);
}

#[test]
fn eof_check_tells_data_and_failures_apart() {
    let deadline = watchdog_deadline(now());
    assert_eq!(assert_eof(Ok(1), now(), deadline), EofStep::UnexpectedData);
    assert_eq!(
        assert_eof(Err(IoError::Os(System::Linux, 5)), now(), deadline),
        EofStep::Failed(IoError::Os(System::Linux, 5))
    );
    for slow in [
        IoError::Os(System::Linux, libc::ETIMEDOUT),
        IoError::Os(
            System::Windows,
            windows_sys::Win32::Networking::WinSock::WSAETIMEDOUT,
        ),
        IoError::Os(
            System::Windows,
            windows_sys::Win32::Foundation::ERROR_OPERATION_ABORTED as i32,
        ),
        IoError::Simple(ErrorKind::TimedOut),
    ] {
        assert_eq!(assert_eof(Err(slow), now(), deadline), EofStep::Retry);
        assert_eq!(assert_eof(Err(slow), deadline, deadline), EofStep::Overdue);
    }
}

/// A peer that moves one byte at a time and interrupts the first call.
struct Fragmented {
    bytes: Vec<u8>,
    interrupt: bool,
}

impl Fragmented {
    fn read(&mut self, buffer: &mut [u8]) -> Result<usize, IoError> {
        if std::mem::take(&mut self.interrupt) {
            return Err(IoError::Simple(ErrorKind::Interrupted));
        }
        if self.bytes.is_empty() {
            return Ok(0);
        }
        buffer[0] = self.bytes.remove(0);
        Ok(1)
    }

    fn write(&mut self, buffer: &[u8]) -> Result<usize, IoError> {
        if std::mem::take(&mut self.interrupt) {
            return Err(IoError::Simple(ErrorKind::Interrupted));
        }
        self.bytes.push(buffer[0]);
        Ok(1)
    }
}

fn read_exact(reader: &mut Fragmented, len: usize) -> Result<Vec<u8>, IoError> {
    let (mut transfer, mut step) = ReadExact::new(len);
    loop {
        match step {
            TransferStep::Done(result) => return result.map(|_| transfer.into_bytes()),
            TransferStep::Transfer { remaining } => {
                let mut buffer = vec![0; remaining];
                let result = reader.read(&mut buffer);
                step = transfer.read_done(result, &buffer);
            }
        }
    }
}

fn write_all(writer: &mut Fragmented, bytes: &[u8]) -> Result<(), IoError> {
    let (mut transfer, mut step) = WriteAll::new(bytes.len());
    loop {
        match step {
            TransferStep::Done(result) => return result,
            TransferStep::Transfer { remaining } => {
                assert_eq!(remaining, bytes.len() - transfer.offset());
                let result = writer.write(&bytes[transfer.offset()..]);
                step = transfer.write_done(result);
            }
        }
    }
}

#[test]
fn complete_transfers_retry_interruptions_and_handle_single_byte_progress() {
    let mut source = Fragmented {
        bytes: b"abc".to_vec(),
        interrupt: true,
    };
    assert_eq!(read_exact(&mut source, 3).unwrap(), b"abc");
    assert_eq!(
        read_exact(&mut source, 1).unwrap_err().kind(),
        Some(ErrorKind::UnexpectedEof)
    );
    let mut sink = Fragmented {
        bytes: Vec::new(),
        interrupt: true,
    };
    write_all(&mut sink, b"abc").unwrap();
    assert_eq!(sink.bytes, b"abc");
    assert!(read_exact(&mut source, 0).unwrap().is_empty());
    write_all(&mut sink, b"").unwrap();
    assert_eq!(sink.bytes, b"abc");
}

#[test]
fn transfers_pass_failures_on() {
    let (mut transfer, _) = ReadExact::new(2);
    assert_eq!(
        transfer.read_done(Ok(1), b"xy"),
        TransferStep::Transfer { remaining: 1 }
    );
    assert_eq!(
        transfer.read_done(Err(IoError::Os(System::Linux, 9)), b""),
        TransferStep::Done(Err(IoError::Os(System::Linux, 9)))
    );
    assert_eq!(transfer.into_bytes(), b"x");
    let (mut transfer, _) = WriteAll::new(2);
    assert_eq!(
        transfer.write_done(Ok(0)),
        TransferStep::Done(Err(IoError::Simple(ErrorKind::WriteZero)))
    );
    assert_eq!(
        transfer.write_done(Err(IoError::Os(System::Linux, 9))),
        TransferStep::Done(Err(IoError::Os(System::Linux, 9)))
    );
    assert_eq!(transfer.write_done(Ok(2)), TransferStep::Done(Ok(())));
}
