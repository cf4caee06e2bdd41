//! The adapter between owned and borrowed buffers, around streams that answer at
//! once or not yet.

use std::cell::{Cell, RefCell};
use std::rc::Rc;

use rsloop_vibeio::error::{ErrorKind, IoError};
use rsloop_vibeio::poll::Poll;
use rsloop_vibeio::util::async_wrap::{
    AsyncWrap, DrainError, DrainStep, FailureKind, FlushStep, Lent, ReadStep, WrapError,
    WriteStep, BUFFER_SIZE,
};

type Failure = WrapError<IoError, ErrorKind>;

/// A stream whose operations are pending where they give nothing.
trait Stream {
    fn read(&mut self, _: &mut [u8]) -> Option<Result<usize, IoError>> {
        panic!("the stream was read")
    }
    fn write(&mut self, _: &[u8]) -> Option<Result<usize, IoError>> {
        panic!("the stream was written")
    }
    fn flush(&mut self) -> Option<Result<(), IoError>> {
        Some(Ok(()))
    }
}

enum InFlight<T> {
    Read(T, Vec<u8>),
    Drain(T, Vec<u8>),
    Flush(T),
}

/// The adapter with the operation that is under way.
struct Wrapped<T> {
    adapter: AsyncWrap<T, ErrorKind>,
    in_flight: Option<InFlight<T>>,
}

impl<T: Stream> Wrapped<T> {
    fn new(inner: T) -> Self {
        Wrapped {
            adapter: AsyncWrap::new(inner),
            in_flight: None,
        }
    }

    /// Go on with a drain or a flush.
    fn settle(&mut self) -> Poll<Result<(), Failure>> {
        match self.in_flight.take().unwrap() {
            InFlight::Drain(mut inner, mut bytes) => loop {
                let Some(result) = inner.write(&bytes) else {
                    self.in_flight = Some(InFlight::Drain(inner, bytes));
                    return Poll::Pending;
                };
                let interrupted = matches!(&result, Err(error) if error.is_interrupted());
                let result = result.map_err(|error| {
                    let kind = error.kind().unwrap();
                    (error, kind)
                });
                match self
                    .adapter
                    .drain_written(result, interrupted, bytes.len(), inner)
                {
                    DrainStep::Write {
                        inner: returned,
                        bytes: left,
                    } => (inner, bytes) = (returned, left),
                    DrainStep::Done(result) => return Poll::Ready(result),
                }
            },
            InFlight::Flush(mut inner) => match inner.flush() {
                Some(result) => Poll::Ready(self.adapter.flush_done(result, inner)),
                None => {
                    self.in_flight = Some(InFlight::Flush(inner));
                    Poll::Pending
                }
            },
            InFlight::Read(..) => panic!("a read cannot be settled"),
        }
    }

    fn poll_read(&mut self, room: usize) -> Poll<Result<Vec<u8>, Failure>> {
        loop {
            match self.adapter.poll_read(room) {
                ReadStep::Done(result) => return Poll::Ready(result),
                ReadStep::Begin { inner, buffer } => {
                    assert_eq!(buffer, [0; BUFFER_SIZE]);
                    self.in_flight = Some(InFlight::Read(inner, buffer));
                }
                ReadStep::Resume(Lent::Read) => {}
                ReadStep::Resume(_) => match self.settle() {
                    Poll::Pending => return Poll::Pending,
                    Poll::Ready(Err(error)) => return Poll::Ready(Err(error)),
                    Poll::Ready(Ok(())) => continue,
                },
            }
            let Some(InFlight::Read(mut inner, mut buffer)) = self.in_flight.take() else {
                panic!("no read is under way")
            };
            return match inner.read(&mut buffer) {
                Some(result) => Poll::Ready(self.adapter.read_done(result, buffer, inner, room)),
                None => {
                    self.in_flight = Some(InFlight::Read(inner, buffer));
                    Poll::Pending
                }
            };
        }
    }

    fn poll_write(&mut self, bytes: &[u8]) -> Poll<Result<usize, Failure>> {
        loop {
            match self.adapter.poll_write(bytes) {
                WriteStep::Done(result) => return Poll::Ready(result),
                WriteStep::Accepted { inner, bytes } => {
                    let accepted = bytes.len();
                    self.in_flight = Some(InFlight::Drain(inner, bytes));
                    return Poll::Ready(Ok(accepted));
                }
                WriteStep::Resume(_) => match self.settle() {
                    Poll::Pending => return Poll::Pending,
                    Poll::Ready(Err(error)) => return Poll::Ready(Err(error)),
                    Poll::Ready(Ok(())) => {}
                },
            }
        }
    }

    fn poll_flush(&mut self) -> Poll<Result<(), Failure>> {
        loop {
            match self.adapter.poll_flush() {
                FlushStep::Done(result) => return Poll::Ready(result),
                FlushStep::Begin(inner) => {
                    self.in_flight = Some(InFlight::Flush(inner));
                    return self.settle();
                }
                FlushStep::Resume(Lent::Flush) => return self.settle(),
                FlushStep::Resume(_) => match self.settle() {
                    Poll::Pending => return Poll::Pending,
                    Poll::Ready(Err(error)) => return Poll::Ready(Err(error)),
                    Poll::Ready(Ok(())) => {}
                },
            }
        }
    }

    fn write_all(&mut self, mut bytes: &[u8]) {
        while !bytes.is_empty() {
            match self.poll_write(bytes) {
                Poll::Ready(Ok(count)) => bytes = &bytes[count..],
                other => panic!("write failed: {other:?}"),
            }
        }
    }
}

fn kind_of(error: &Failure) -> ErrorKind {
    match (error.kind(), error) {
        (Some(FailureKind::Own(kind) | FailureKind::Inner(kind)), _) => kind,
        (None, WrapError::Inner(error) | WrapError::Drain(DrainError::Inner(error))) => {
            error.kind().unwrap()
        }
        (None, error) => panic!("{error:?} has no kind"),
    }
}

#[derive(Default)]
struct WriterState {
    data: Vec<u8>,
    writes: usize,
    flushed: bool,
}

struct ChunkedWriter {
    state: Rc<RefCell<WriterState>>,
    chunk_size: usize,
}

impl Stream for ChunkedWriter {
    fn write(&mut self, bytes: &[u8]) -> Option<Result<usize, IoError>> {
        let count = bytes.len().min(self.chunk_size.max(1));
        let mut state = self.state.borrow_mut();
        state.writes += 1;
        state.data.extend_from_slice(&bytes[..count]);
        Some(Ok(count))
    }
    fn flush(&mut self) -> Option<Result<(), IoError>> {
        self.state.borrow_mut().flushed = true;
        Some(Ok(()))
    }
}

struct InterruptedWriter {
    inner: ChunkedWriter,
    attempts: Rc<Cell<usize>>,
}

impl Stream for InterruptedWriter {
    fn write(&mut self, bytes: &[u8]) -> Option<Result<usize, IoError>> {
        let attempt = self.attempts.get();
        self.attempts.set(attempt + 1);
        if attempt % 2 == 0 {
            Some(Err(IoError::Simple(ErrorKind::Interrupted)))
        } else {
            self.inner.write(bytes)
        }
    }
    fn flush(&mut self) -> Option<Result<(), IoError>> {
        self.inner.flush()
    }
}

#[test]
fn async_wrap_retries_interrupted_writes_without_losing_accepted_bytes() {
    let state = Rc::new(RefCell::new(WriterState::default()));
    let attempts = Rc::new(Cell::new(0));
    let mut wrap = Wrapped::new(InterruptedWriter {
        inner: ChunkedWriter {
            state: state.clone(),
            chunk_size: 2,
        },
        attempts: attempts.clone(),
    });
    wrap.write_all(b"abcdef");
    assert_eq!(wrap.poll_flush(), Poll::Ready(Ok(())));
    let state = state.borrow();
    assert_eq!(state.data, b"abcdef");
    assert_eq!(state.writes, 3);
    assert!(state.flushed);
    assert_eq!(attempts.get(), 6);
}

struct CountingReader {
    data: Vec<u8>,
    offset: usize,
    reads: Rc<Cell<usize>>,
}

impl CountingReader {
    fn new(data: &[u8], reads: Rc<Cell<usize>>) -> Self {
        CountingReader {
            data: data.to_vec(),
            offset: 0,
            reads,
        }
    }
}

impl Stream for CountingReader {
    fn read(&mut self, buffer: &mut [u8]) -> Option<Result<usize, IoError>> {
        self.reads.set(self.reads.get() + 1);
        let count = (self.data.len() - self.offset).min(buffer.len());
        buffer[..count].copy_from_slice(&self.data[self.offset..self.offset + count]);
        self.offset += count;
        Some(Ok(count))
    }
}

#[test]
fn async_wrap_read_buffers_leftover() {
    let reads = Rc::new(Cell::new(0));
    let mut wrap = Wrapped::new(CountingReader::new(b"abcdefghij", reads.clone()));
    assert_eq!(wrap.poll_read(3), Poll::Ready(Ok(b"abc".to_vec())));
    assert_eq!(wrap.poll_read(4), Poll::Ready(Ok(b"defg".to_vec())));
    assert_eq!(wrap.poll_read(4), Poll::Ready(Ok(b"hij".to_vec())));
    assert_eq!(reads.get(), 1);
}

#[test]
fn async_wrap_reads_into_uninitialized_storage_and_preserves_prefix() {
    let reads = Rc::new(Cell::new(0));
    let mut wrap = Wrapped::new(CountingReader::new(b"abcdef", reads.clone()));
    // Exercise both the newly completed read and the cached remainder.
    for expected in [b"!abc", b"!def"] {
        let mut buffer = b"!".to_vec();
        match wrap.poll_read(4 - buffer.len()) {
            Poll::Ready(Ok(bytes)) => buffer.extend_from_slice(&bytes),
            other => panic!("read failed: {other:?}"),
        }
        assert_eq!(&buffer, expected);
    }
    assert_eq!(reads.get(), 1);
    assert_eq!(wrap.poll_read(4), Poll::Ready(Ok(vec![])));
    assert_eq!(wrap.poll_read(0), Poll::Ready(Ok(vec![])));
}

#[test]
fn async_wrap_write_writes_all_and_flushes() {
    let state = Rc::new(RefCell::new(WriterState::default()));
    let mut wrap = Wrapped::new(ChunkedWriter {
        state: state.clone(),
        chunk_size: 2,
    });
    let payload: Vec<u8> = (0..BUFFER_SIZE * 2 + 7)
        .map(|index| (index % 251) as u8)
        .collect();
    wrap.write_all(&payload);
    assert_eq!(wrap.poll_flush(), Poll::Ready(Ok(())));
    let state = state.borrow();
    assert_eq!(state.data, payload);
    assert!(state.flushed);
    assert!(state.writes > 1);
}

struct PendingIo;

impl Stream for PendingIo {
    fn read(&mut self, _: &mut [u8]) -> Option<Result<usize, IoError>> {
        None
    }
}

#[test]
fn async_wrap_rejects_concurrent_operations() {
    let mut wrap = Wrapped::new(PendingIo);
    assert_eq!(wrap.poll_read(8), Poll::Pending);
    match wrap.poll_write(b"hi") {
        Poll::Ready(Err(error)) => {
            assert_eq!(kind_of(&error), ErrorKind::Other);
            assert_eq!(
                error.message(),
                Some("another operation is already in progress")
            );
        }
        _ => panic!("expected concurrent write to return an error"),
    }
    assert_eq!(wrap.poll_flush(), Poll::Ready(Err(WrapError::Busy)));
    assert!(!wrap.adapter.is_idle());
}

struct ZeroWriter;

impl Stream for ZeroWriter {
    fn write(&mut self, _: &[u8]) -> Option<Result<usize, IoError>> {
        Some(Ok(0))
    }
}

#[test]
fn async_wrap_reports_write_zero() {
    let mut wrap = Wrapped::new(ZeroWriter);
    wrap.write_all(b"data");
    match wrap.poll_flush() {
        Poll::Ready(Err(error)) => assert_eq!(kind_of(&error), ErrorKind::WriteZero),
        _ => panic!("a zero-length write must not be retried forever"),
    }
}

struct PartialThenError {
    calls: usize,
}

impl Stream for PartialThenError {
    fn write(&mut self, _: &[u8]) -> Option<Result<usize, IoError>> {
        self.calls += 1;
        if self.calls == 1 {
            Some(Ok(1))
        } else {
            Some(Err(IoError::Simple(ErrorKind::BrokenPipe)))
        }
    }
}

#[test]
fn async_wrap_reports_accepted_bytes_before_a_later_drain_error() {
    let mut wrap = Wrapped::new(PartialThenError { calls: 0 });
    assert_eq!(wrap.poll_write(b"abc"), Poll::Ready(Ok(3)));
    assert!(matches!(wrap.poll_write(b"bc"),
        Poll::Ready(Err(error)) if kind_of(&error) == ErrorKind::BrokenPipe));
}

struct FailingWriter(ErrorKind);

impl Stream for FailingWriter {
    fn write(&mut self, bytes: &[u8]) -> Option<Result<usize, IoError>> {
        Some(match self.0 {
            ErrorKind::WriteZero => Ok(0),
            ErrorKind::InvalidData => Ok(bytes.len() + 1),
            kind => Err(IoError::Simple(kind)),
        })
    }
    fn read(&mut self, _: &mut [u8]) -> Option<Result<usize, IoError>> {
        panic!("a read must report the failed drain before reaching the inner reader")
    }
}

#[test]
fn async_wrap_drain_failure_cannot_be_followed_by_successful_delivery() {
    for kind in [
        ErrorKind::BrokenPipe,
        ErrorKind::WriteZero,
        ErrorKind::InvalidData,
    ] {
        let later = || match kind {
            ErrorKind::BrokenPipe => FailureKind::Inner(kind),
            kind => FailureKind::Own(kind),
        };
        let mut wrap = Wrapped::new(FailingWriter(kind));
        assert_eq!(wrap.poll_write(b"accepted"), Poll::Ready(Ok(8)));
        for round in 0..2 {
            match wrap.poll_flush() {
                Poll::Ready(Err(error)) => {
                    assert_eq!(kind_of(&error), kind);
                    // Only the first error keeps its details.
                    assert_eq!(error.message().is_none(), round == 0);
                }
                _ => panic!("the drain failed"),
            }
            assert_eq!(
                wrap.poll_flush(),
                Poll::Ready(Err(WrapError::DrainFailed(later())))
            );
            assert_eq!(
                wrap.poll_write(b"later"),
                Poll::Ready(Err(WrapError::DrainFailed(later())))
            );
            assert_eq!(
                wrap.poll_read(1),
                Poll::Ready(Err(WrapError::DrainFailed(later())))
            );
        }
    }
}

#[test]
fn async_wrap_bounds_accepted_buffer_size() {
    let mut wrap = Wrapped::new(ZeroWriter);
    assert_eq!(
        wrap.poll_write(&[0; BUFFER_SIZE + 1]),
        Poll::Ready(Ok(BUFFER_SIZE))
    );
}

struct GatedWriter {
    enabled: Rc<Cell<bool>>,
    state: Rc<RefCell<WriterState>>,
}

impl Stream for GatedWriter {
    fn write(&mut self, bytes: &[u8]) -> Option<Result<usize, IoError>> {
        if !self.enabled.get() {
            return None;
        }
        self.state.borrow_mut().data.push(bytes[0]);
        Some(Ok(1))
    }
    fn flush(&mut self) -> Option<Result<(), IoError>> {
        self.state.borrow_mut().flushed = true;
        Some(Ok(()))
    }
}

#[test]
fn cancelled_pending_write_does_not_consume_replacement_buffer() {
    let enabled = Rc::new(Cell::new(false));
    let state = Rc::new(RefCell::new(WriterState::default()));
    let mut wrap = Wrapped::new(GatedWriter {
        enabled: enabled.clone(),
        state: state.clone(),
    });
    assert_eq!(wrap.poll_write(b"old"), Poll::Ready(Ok(3)));
    assert_eq!(wrap.poll_flush(), Poll::Pending);
    assert_eq!(wrap.poll_write(b"discarded"), Poll::Pending);
    // Cancel the pending caller and use a smaller, different buffer.
    enabled.set(true);
    assert_eq!(wrap.poll_write(b"z"), Poll::Ready(Ok(1)));
    assert_eq!(state.borrow().data, b"old");
    assert_eq!(wrap.poll_flush(), Poll::Ready(Ok(())));
    let state = state.borrow();
    assert_eq!(state.data, b"oldz");
    assert!(state.flushed);
}

struct Overrunning;

impl Stream for Overrunning {
    fn read(&mut self, buffer: &mut [u8]) -> Option<Result<usize, IoError>> {
        Some(Ok(buffer.len() + 1))
    }
}

#[test]
fn readers_cannot_claim_more_than_they_were_given() {
    let mut wrap = Wrapped::new(Overrunning);
    match wrap.poll_read(8) {
        Poll::Ready(Err(error)) => {
            assert_eq!(kind_of(&error), ErrorKind::InvalidData);
            assert_eq!(
                error.message(),
                Some("reader returned more bytes than the supplied buffer can hold")
            );
        }
        other => panic!("unexpected outcome {other:?}"),
    }
}

#[test]
fn a_flush_comes_after_every_batch_that_was_accepted() {
    let enabled = Rc::new(Cell::new(true));
    let state = Rc::new(RefCell::new(WriterState::default()));
    let mut wrap = Wrapped::new(GatedWriter {
        enabled: enabled.clone(),
        state: state.clone(),
    });
    for batch in [&b"one"[..], &b"two"[..], &b"three"[..]] {
        wrap.write_all(batch);
    }
    assert_eq!(state.borrow().data, b"onetwo");
    enabled.set(false);
    assert_eq!(wrap.poll_flush(), Poll::Pending);
    assert!(!state.borrow().flushed);
    enabled.set(true);
    assert_eq!(wrap.poll_flush(), Poll::Ready(Ok(())));
    assert_eq!(state.borrow().data, b"onetwothree");
    assert!(state.borrow().flushed);
}
