//! Complete transfers, and operations that are driven until they end.
//!
//! A watchdog bounds how long something is driven for. It is no requirement on
//! speed: what ends first, the operation or its time, decides.

use vstd::prelude::*;

use crate::clock::{Duration, Instant, INSTANT_MAX_NANOS};
use crate::error::{ErrorKind, IoError};
use crate::poll::Poll;

verus! {

/// How long something may take, in seconds.
pub const WATCHDOG_SECS: u64 = 30;

/// How long something may take, in nanoseconds.
pub const WATCHDOG_NANOS: i128 = 30_000_000_000;

/// When the time is up for what starts now.
pub fn watchdog_deadline(now: Instant) -> (r: Instant)
    requires
        now@ + WATCHDOG_NANOS <= INSTANT_MAX_NANOS,
    ensures
        r@ == now@ + WATCHDOG_NANOS,
{
    match now.checked_add(Duration::from_secs(WATCHDOG_SECS)) {
        Some(deadline) => deadline,
        None => now,
    }
}

/// What follows a poll.
pub enum DriveStep<T> {
    Done(Result<T, IoError>),
    /// Drive the event loop, and poll again.
    Drive,
}

/// What follows a poll, at the time it was made.
pub open spec fn poll_io_step<T>(
    polled: Poll<Result<T, IoError>>,
    now: Instant,
    deadline: Instant,
) -> DriveStep<T> {
    let again = match polled {
        Poll::Pending => true,
        Poll::Ready(Err(error)) => error.interrupted(),
        Poll::Ready(Ok(_)) => false,
    };
    if !again {
        DriveStep::Done(polled->Ready_0)
    } else if now@ >= deadline@ {
        DriveStep::Done(
            Err(IoError::Message(ErrorKind::TimedOut, "native operation exceeded watchdog")),
        )
    } else {
        DriveStep::Drive
    }
}

/// Drive an operation through waits and interrupted calls. Every other error is
/// final and kept as it is.
pub fn poll_io<T>(
    polled: Poll<Result<T, IoError>>,
    now: Instant,
    deadline: Instant,
) -> (r: DriveStep<T>)
    ensures
        r == poll_io_step(polled, now, deadline),
{
    match polled {
        Poll::Pending => {},
        Poll::Ready(Ok(value)) => {
            return DriveStep::Done(Ok(value));
        },
        Poll::Ready(Err(error)) => {
            if !error.is_interrupted() {
                return DriveStep::Done(Err(error));
            }
        },
    }
    if deadline.is_due(now) {
        DriveStep::Done(
            Err(IoError::Message(ErrorKind::TimedOut, "native operation exceeded watchdog")),
        )
    } else {
        DriveStep::Drive
    }
}

/// What follows a look at whether something has happened.
#[derive(Debug, Clone, Copy, PartialEq, Eq, Structural)]
pub enum Progress {
    Happened,
    Drive,
    /// It did not happen in time.
    Overdue,
}

/// Drive the event loop until something has happened.
pub fn drive_until(ready: bool, now: Instant, deadline: Instant) -> (r: Progress)
    ensures
        r == if ready {
            Progress::Happened
        } else if now@ >= deadline@ {
            Progress::Overdue
        } else {
            Progress::Drive
        },
{
    if ready {
        Progress::Happened
    } else if deadline.is_due(now) {
        Progress::Overdue
    } else {
        Progress::Drive
    }
}

/// What a read that waits for the end of a stream found.
#[derive(Debug, Clone, Copy, PartialEq, Eq)]
pub enum EofStep {
    Reached,
    /// Read again.
    Retry,
    UnexpectedData,
    Failed(IoError),
    /// The last writer did not let go in time.
    Overdue,
}

/// The read found nothing yet, and may find something later.
pub open spec fn unsettled(error: IoError) -> bool {
    error.would_block() || error.interrupted() || match error {
        IoError::Os(system, code) => system.timed_out(code),
        IoError::Simple(kind) => kind == ErrorKind::TimedOut,
        IoError::Message(kind, _) => kind == ErrorKind::TimedOut,
    }
}

fn is_unsettled(error: &IoError) -> (r: bool)
    ensures
        r == unsettled(*error),
{
    error.is_would_block() || error.is_interrupted() || match error {
        IoError::Os(system, code) => system.timed_out(*code),
        IoError::Simple(kind) => *kind == ErrorKind::TimedOut,
        IoError::Message(kind, _) => *kind == ErrorKind::TimedOut,
    }
}

/// Wait for the end of a stream that does not block or has a read timeout. A
/// writer can be held for a moment after its owner let go of it.
pub fn assert_eof(read: Result<usize, IoError>, now: Instant, deadline: Instant) -> (r: EofStep)
    ensures
        r == match read {
            Ok(count) => if count == 0 {
                EofStep::Reached
            } else {
                EofStep::UnexpectedData
            },
            Err(error) => if !unsettled(error) {
                EofStep::Failed(error)
            } else if now@ >= deadline@ {
                EofStep::Overdue
            } else {
                EofStep::Retry
            },
        },
{
    match read {
        Ok(count) => {
            if count == 0 {
                EofStep::Reached
            } else {
                EofStep::UnexpectedData
            }
        },
        Err(error) => {
            if !is_unsettled(&error) {
                EofStep::Failed(error)
            } else if deadline.is_due(now) {
                EofStep::Overdue
            } else {
                EofStep::Retry
            }
        },
    }
}

/// What a complete transfer does next.
#[derive(Debug, Clone, Copy, PartialEq, Eq)]
pub enum TransferStep {
    Done(Result<(), IoError>),
    /// Transfer at most so many bytes, and take in the outcome.
    Transfer { remaining: usize },
}

/// A read of exactly `len` bytes, in as many parts as it takes.
pub struct ReadExact {
    bytes: Vec<u8>,
    len: usize,
}

impl ReadExact {
    #[verifier::type_invariant]
    pub closed spec fn wf(self) -> bool {
        self.bytes@.len() <= self.len
    }

    /// The bytes that have been read.
    pub closed spec fn read(self) -> Seq<u8> {
        self.bytes@
    }

    /// How many bytes are read in all.
    pub closed spec fn wanted(self) -> usize {
        self.len
    }

    /// What comes next, while no read failed.
    pub open spec fn pending_step(self) -> TransferStep {
        if self.read().len() < self.wanted() {
            TransferStep::Transfer { remaining: (self.wanted() - self.read().len()) as usize }
        } else {
            TransferStep::Done(Ok(()))
        }
    }

    pub fn new(len: usize) -> (r: (Self, TransferStep))
        ensures
            r.0.read() == Seq::<u8>::empty(),
            r.0.wanted() == len,
            r.1 == r.0.pending_step(),
    {
        let transfer = ReadExact { bytes: Vec::new(), len };
        let step = transfer.next_step();
        (transfer, step)
    }

    fn next_step(&self) -> (r: TransferStep)
        ensures
            r == self.pending_step(),
    {
        proof {
            use_type_invariant(self);
        }
        if self.bytes.len() < self.len {
            TransferStep::Transfer { remaining: self.len - self.bytes.len() }
        } else {
            TransferStep::Done(Ok(()))
        }
    }

    /// Take in a read into `buffer`. An interrupted one is made again; a stream
    /// that ended is an error, since there is more to read.
    pub fn read_done(&mut self, result: Result<usize, IoError>, buffer: &[u8]) -> (r: TransferStep)
        requires
            old(self).read().len() < old(self).wanted(),
            result matches Ok(count) ==> count <= buffer@.len() && count <= old(self).wanted()
                - old(self).read().len(),
        ensures
            final(self).wanted() == old(self).wanted(),
            r matches TransferStep::Done(Ok(_)) ==> final(self).read().len() == old(self).wanted(),
            match result {
                Ok(count) => {
                    &&& final(self).read() == old(self).read() + buffer@.take(count as int)
                    &&& r == if count == 0 {
                        TransferStep::Done(Err(IoError::Simple(ErrorKind::UnexpectedEof)))
                    } else {
                        final(self).pending_step()
                    }
                },
                Err(error) => {
                    &&& final(self).read() == old(self).read()
                    &&& r == if error.interrupted() {
                        old(self).pending_step()
                    } else {
                        TransferStep::Done(Err(error))
                    }
                },
            },
    {
        proof {
            use_type_invariant(&*self);
        }
        match result {
            Ok(count) => {
                if count == 0 {
                    assert(self.read() + buffer@.take(0) =~= self.read());
                    return TransferStep::Done(Err(IoError::Simple(ErrorKind::UnexpectedEof)));
                }
                let mut bytes: Vec<u8> = Vec::new();
                core::mem::swap(&mut self.bytes, &mut bytes);
                let ghost before = bytes@;
                let mut i: usize = 0;
                while i < count
                    invariant
                        i <= count <= buffer@.len(),
                        bytes@ == before + buffer@.take(i as int),
                    decreases count - i,
                {
                    bytes.push(buffer[i]);
                    assert(buffer@.take(i + 1) =~= buffer@.take(i as int).push(buffer@[i as int]));
                    assert(bytes@ =~= before + buffer@.take(i + 1));
                    i = i + 1;
                }
                self.bytes = bytes;
                self.next_step()
            },
            Err(error) => {
                if error.is_interrupted() {
                    self.next_step()
                } else {
                    TransferStep::Done(Err(error))
                }
            },
        }
    }

    /// The bytes that were read.
    pub fn into_bytes(self) -> (r: Vec<u8>)
        ensures
            r@ == self.read(),
    {
        self.bytes
    }
}

/// A write of `len` bytes, in as many parts as it takes.
pub struct WriteAll {
    offset: usize,
    len: usize,
}

impl WriteAll {
    #[verifier::type_invariant]
    pub closed spec fn wf(self) -> bool {
        self.offset <= self.len
    }

    /// How many bytes have been written.
    pub closed spec fn written(self) -> usize {
        self.offset
    }

    /// How many bytes are written in all.
    pub closed spec fn wanted(self) -> usize {
        self.len
    }

    /// What comes next, while no write failed.
    pub open spec fn pending_step(self) -> TransferStep {
        if self.written() < self.wanted() {
            TransferStep::Transfer { remaining: (self.wanted() - self.written()) as usize }
        } else {
            TransferStep::Done(Ok(()))
        }
    }

    pub fn new(len: usize) -> (r: (Self, TransferStep))
        ensures
            r.0.written() == 0,
            r.0.wanted() == len,
            r.1 == r.0.pending_step(),
    {
        let transfer = WriteAll { offset: 0, len };
        let step = transfer.next_step();
        (transfer, step)
    }

    fn next_step(&self) -> (r: TransferStep)
        ensures
            r == self.pending_step(),
    {
        proof {
            use_type_invariant(self);
        }
        if self.offset < self.len {
            TransferStep::Transfer { remaining: self.len - self.offset }
        } else {
            TransferStep::Done(Ok(()))
        }
    }

    /// Where the bytes begin that are still to be written.
    pub fn offset(&self) -> (r: usize)
        ensures
            r == self.written(),
            r <= self.wanted(),
    {
        proof {
            use_type_invariant(self);
        }
        self.offset
    }

    /// Take in a write of the bytes that were left. An interrupted one is made
    /// again; one that wrote nothing is an error.
    pub fn write_done(&mut self, result: Result<usize, IoError>) -> (r: TransferStep)
        requires
            old(self).written() < old(self).wanted(),
            result matches Ok(count) ==> count <= old(self).wanted() - old(self).written(),
        ensures
            final(self).wanted() == old(self).wanted(),
            r matches TransferStep::Done(Ok(_)) ==> final(self).written() == old(self).wanted(),
            match result {
                Ok(count) => {
                    &&& final(self).written() == old(self).written() + count
                    &&& r == if count == 0 {
                        TransferStep::Done(Err(IoError::Simple(ErrorKind::WriteZero)))
                    } else {
                        final(self).pending_step()
                    }
                },
                Err(error) => {
                    &&& final(self).written() == old(self).written()
                    &&& r == if error.interrupted() {
                        old(self).pending_step()
                    } else {
                        TransferStep::Done(Err(error))
                    }
                },
            },
    {
        proof {
            use_type_invariant(&*self);
        }
        match result {
            Ok(count) => {
                if count == 0 {
                    return TransferStep::Done(Err(IoError::Simple(ErrorKind::WriteZero)));
                }
                self.offset = self.offset + count;
                self.next_step()
            },
            Err(error) => {
                if error.is_interrupted() {
                    self.next_step()
                } else {
                    TransferStep::Done(Err(error))
                }
            },
        }
    }
}

/// What starts now may take half a minute.
pub proof fn watchdogs_wait_half_a_minute(
    now: Instant,
    r: Instant,
)
    requires
        now@ + 30_000_000_000 <= 9_223_372_036_854_775_807_999_999_999,
        call_ensures(watchdog_deadline, (now,), r),
    ensures
        r@ - now@ == 30_000_000_000,
{
}

/// An operation is driven on while it is pending or was interrupted, until its time is up; any other
/// result ends it and comes out as it is.
pub proof fn operations_are_driven_until_they_end<T>(
    polled: Poll<Result<T, IoError>>,
    now: Instant,
    deadline: Instant,
    r: DriveStep<T>,
    result: Result<T, IoError>,
    ready: bool,
    progress: Progress,
)
    requires
        call_ensures(poll_io::<T>, (polled, now, deadline), r),
        call_ensures(drive_until, (ready, now, deadline), progress),
    ensures
        polled == Poll::Ready(result) && !(result matches Err(error) && error.interrupted()) ==> r
            == DriveStep::Done(result),
        polled is Pending || (polled matches Poll::Ready(Err(error)) && error.interrupted())
            ==> if now@
            < deadline@ {
            r is Drive
        } else {
            r matches DriveStep::Done(Err(IoError::Message(kind, _))) && kind is TimedOut
        },
        progress is Happened <==> ready,
        progress is Drive <==> !ready && now@ < deadline@,
{
}

/// The end of a stream is reached by a read of nothing. Data is not expected; a read that would block,
/// was interrupted or timed out is made again until the time is up, and any other error is a failure.
pub proof fn streams_end_with_a_read_of_nothing(
    read: Result<usize, IoError>,
    now: Instant,
    deadline: Instant,
    r: EofStep,
)
    requires
        call_ensures(assert_eof, (read, now, deadline), r),
    ensures
        r is Reached <==> (read matches Ok(count) && count == 0),
        r is UnexpectedData <==> (read matches Ok(count) && count > 0),
        r matches EofStep::Failed(error) ==> read == Err::<usize, IoError>(error)
            && !error.would_block()
            && !error.interrupted(),
        read matches Err(error) ==> error.would_block() || error.interrupted()
            ==> if now@ < deadline@ {
            r is Retry
        } else {
            r is Overdue
        },
        read matches Err(error) ==> match error {
            IoError::Os(system, code) => (r is Failed <==> !(error.would_block()
                || error.interrupted()
                || system.timed_out(code))),
            IoError::Simple(kind) => (r is Failed <==> !(kind is WouldBlock
                || kind is Interrupted || kind
                is TimedOut)),
            IoError::Message(kind, _) => (r is Failed <==> !(kind is WouldBlock
                || kind is Interrupted
                || kind is TimedOut)),
        },
        r is Retry ==> now@ < deadline@,
        r is Overdue ==> deadline@ <= now@,
        read is Err ==> r is Retry || r is Overdue || r is Failed,
{
}

/// A complete read asks for exactly what it lacks, collects what came byte by byte and in order, and
/// is done exactly when it has all. The end of the stream is an error, and only an interrupted read is
/// made again.
pub proof fn complete_reads_collect_every_byte(
    before: ReadExact,
    after: ReadExact,
    result: Result<usize, IoError>,
    buffer: &[u8],
    r: TransferStep,
    i: int,
)
    requires
        exists|it: &mut ReadExact|
            *it == before && *final(it) == after && #[trigger] call_ensures(
                ReadExact::read_done,
                (it, result, buffer),
                r,
            ),
        before.read().len() < before.wanted(),
        result matches Ok(count) ==> count <= buffer@.len() && count
            <= before.wanted() - before.read().len(),
    ensures
        after.wanted() == before.wanted(),
        0 <= i < before.read().len() ==> after.read()[i] == before.read()[i],
        result matches Ok(count) ==> after.read().len() == before.read().len() + count && (0
            <= i < count
            ==> after.read()[before.read().len() + i] == buffer@[i]),
        result is Err ==> after.read() == before.read(),
        (r matches TransferStep::Done(Ok(_))) <==> after.read().len() == after.wanted(),
        r matches TransferStep::Transfer { remaining } ==> after.read().len() + remaining
            == after.wanted(),
        result == Ok::<usize, IoError>(0) ==> r == TransferStep::Done(
            Err::<(), IoError>(IoError::Simple(ErrorKind::UnexpectedEof)),
        ),
        result matches Err(error) ==> if error.interrupted() {
            r is Transfer
        } else {
            r == TransferStep::Done(Err::<(), IoError>(error))
        },
{
}

/// A complete write asks for exactly what it lacks, counts what went, and is done exactly when all
/// went. A write of nothing is an error, and only an interrupted one is made again.
pub proof fn complete_writes_count_every_byte(
    before: WriteAll,
    after: WriteAll,
    result: Result<usize, IoError>,
    r: TransferStep,
    at: usize,
)
    requires
        exists|it: &mut WriteAll|
            *it == before && *final(it) == after && #[trigger] call_ensures(
                WriteAll::write_done,
                (it, result),
                r,
            ),
        before.written() < before.wanted(),
        result matches Ok(count) ==> count <= before.wanted() - before.written(),
        call_ensures(WriteAll::offset, (&before,), at),
    ensures
        at == before.written(),
        after.wanted() == before.wanted(),
        after.written() == before.written() + match result {
            Ok(count) => count as int,
            Err(_) => 0int,
        },
        (r matches TransferStep::Done(Ok(_))) <==> after.written() == after.wanted(),
        r matches TransferStep::Transfer { remaining } ==> after.written() + remaining
            == after.wanted(),
        result == Ok::<usize, IoError>(0) ==> r == TransferStep::Done(
            Err::<(), IoError>(IoError::Simple(ErrorKind::WriteZero)),
        ),
        result matches Err(error) ==> if error.interrupted() {
            r is Transfer
        } else {
            r == TransferStep::Done(Err::<(), IoError>(error))
        },
{
}

/// Complete transfers start with nothing, and are done at once where nothing is wanted; a read gives
/// out all that it collected.
pub proof fn complete_transfers_start_with_nothing(
    len: usize,
    reading: (ReadExact, TransferStep),
    writing: (WriteAll, TransferStep),
    bytes: Vec<u8>,
)
    requires
        call_ensures(ReadExact::new, (len,), reading),
        call_ensures(WriteAll::new, (len,), writing),
        call_ensures(ReadExact::into_bytes, (reading.0,), bytes),
    ensures
        reading.0.read().len() == 0 && reading.0.wanted() == len && bytes@ == reading.0.read(),
        writing.0.written() == 0 && writing.0.wanted() == len,
        len > 0 ==> reading.1 == (TransferStep::Transfer { remaining: len }) && writing.1
            == (TransferStep::Transfer { remaining: len }),
        len == 0 ==> (reading.1 matches TransferStep::Done(Ok(_))) && (writing.1 matches
            TransferStep::Done(Ok(_))),
{
}

} // verus!
