//! An adapter between owned-buffer streams and borrowed-buffer streams.
//!
//! The inner stream is lent to one operation at a time: a read, the drain of
//! bytes that were accepted, or a flush. The adapter decides which operation is
//! begun or gone on with, and what a caller gets of it.

use vstd::prelude::*;

use crate::error::ErrorKind;
use crate::io::flat;

verus! {

/// Size of the buffers that the adapter reads into and accepts bytes into.
pub const BUFFER_SIZE: usize = 4096;

/// A kind of error: one that the adapter gives, or one of the inner stream.
#[derive(Debug, PartialEq, Eq)]
pub enum FailureKind<K> {
    Own(ErrorKind),
    Inner(K),
}

impl<K: Copy> FailureKind<K> {
    fn copied(&self) -> (r: Self)
        ensures
            r == *self,
    {
        match self {
            FailureKind::Own(kind) => FailureKind::Own(*kind),
            FailureKind::Inner(kind) => FailureKind::Inner(*kind),
        }
    }
}

/// An error of the adapter. `E` is an error of the inner stream, `K` the kind of
/// one.
#[derive(Debug, PartialEq, Eq)]
pub enum WrapError<E, K> {
    /// The inner stream failed.
    Inner(E),
    /// Bytes that were accepted could not be delivered.
    Drain(DrainError<E>),
    /// Bytes that were accepted earlier could not be delivered.
    DrainFailed(FailureKind<K>),
    /// The inner stream is lent to another operation.
    Busy,
    /// The inner stream says that it read more than it was given room for.
    Overrun,
}

/// Why a drain failed.
#[derive(Debug, PartialEq, Eq)]
pub enum DrainError<E> {
    Inner(E),
    /// The inner stream takes no more bytes.
    WriteZero,
    /// The inner stream says that it wrote more than it was given.
    InvalidData,
}

impl<E> DrainError<E> {
    /// The kind of an error that is the adapter's own; one of the inner stream
    /// tells its kind itself.
    pub open spec fn own_kind(self) -> Option<ErrorKind> {
        match self {
            DrainError::Inner(_) => None,
            DrainError::WriteZero => Some(ErrorKind::WriteZero),
            DrainError::InvalidData => Some(ErrorKind::InvalidData),
        }
    }

    pub fn kind(&self) -> (r: Option<ErrorKind>)
        ensures
            r == self.own_kind(),
    {
        match self {
            DrainError::Inner(_) => None,
            DrainError::WriteZero => Some(ErrorKind::WriteZero),
            DrainError::InvalidData => Some(ErrorKind::InvalidData),
        }
    }
}

impl<E, K: Copy> WrapError<E, K> {
    /// The kind of the error; one of the inner stream tells its kind itself.
    pub fn kind(&self) -> (r: Option<FailureKind<K>>)
        ensures
            r == match *self {
                WrapError::Inner(_) => None,
                WrapError::Drain(error) => match error.own_kind() {
                    Some(kind) => Some(FailureKind::Own(kind)),
                    None => None,
                },
                WrapError::DrainFailed(kind) => Some(kind),
                WrapError::Busy => Some(FailureKind::Own(ErrorKind::Other)),
                WrapError::Overrun => Some(FailureKind::Own(ErrorKind::InvalidData)),
            },
    {
        match self {
            WrapError::Inner(_) => None,
            WrapError::Drain(error) => match error.kind() {
                Some(kind) => Some(FailureKind::Own(kind)),
                None => None,
            },
            WrapError::DrainFailed(kind) => Some(kind.copied()),
            WrapError::Busy => Some(FailureKind::Own(ErrorKind::Other)),
            WrapError::Overrun => Some(FailureKind::Own(ErrorKind::InvalidData)),
        }
    }

    /// The message of an error that is the adapter's own.
    pub fn message(&self) -> (r: Option<&'static str>)
        ensures
            r == match *self {
                WrapError::Inner(_) => None,
                WrapError::Drain(_) => None,
                WrapError::DrainFailed(_) => Some(
                    "a previous write drain failed; accepted data could not be delivered",
                ),
                WrapError::Busy => Some("another operation is already in progress"),
                WrapError::Overrun => Some(
                    "reader returned more bytes than the supplied buffer can hold",
                ),
            },
    {
        match self {
            WrapError::Inner(_) => None,
            WrapError::Drain(_) => None,
            WrapError::DrainFailed(_) => Some(
                "a previous write drain failed; accepted data could not be delivered",
            ),
            WrapError::Busy => Some("another operation is already in progress"),
            WrapError::Overrun => Some(
                "reader returned more bytes than the supplied buffer can hold",
            ),
        }
    }
}

/// Bytes that were read and not handed out yet: those of `buffer` from `advanced`
/// up to `filled`.
pub struct Leftover {
    pub buffer: Vec<u8>,
    pub advanced: usize,
    pub filled: usize,
}

impl Leftover {
    pub open spec fn wf(self) -> bool {
        self.advanced < self.filled <= self.buffer@.len()
    }

    /// The bytes that are left.
    pub open spec fn bytes(self) -> Seq<u8> {
        self.buffer@.subrange(self.advanced as int, self.filled as int)
    }
}

/// The operation that the inner stream is lent to.
#[derive(Debug, Clone, Copy, PartialEq, Eq, Structural)]
pub enum Lent {
    Read,
    Drain,
    Flush,
}

/// The adapter of an inner stream.
pub struct AsyncWrap<T, K> {
    inner: Option<T>,
    lent: Option<Lent>,
    write_error: Option<FailureKind<K>>,
    read_buf: Option<Leftover>,
    drain: Option<Drain>,
    accepted: Ghost<Seq<u8>>,
    delivered: Ghost<Seq<u8>>,
}

/// What reading does next.
pub enum ReadStep<T, E, K> {
    /// Hand these bytes out, or the error.
    Done(Result<Vec<u8>, WrapError<E, K>>),
    /// Begin to read into the buffer with the inner stream, then poll.
    Begin { inner: T, buffer: Vec<u8> },
    /// Poll the operation that is under way.
    Resume(Lent),
}

/// What writing does next.
pub enum WriteStep<T, E, K> {
    /// Say how many bytes were accepted: none, or fail.
    Done(Result<usize, WrapError<E, K>>),
    /// Begin to drain these bytes, by a write to the inner stream. They count as
    /// accepted now, not when they have been drained.
    Accepted { inner: T, bytes: Vec<u8> },
    /// Poll the operation that is under way.
    Resume(Lent),
}

/// What flushing does next.
pub enum FlushStep<T, E, K> {
    Done(Result<(), WrapError<E, K>>),
    /// Begin to flush the inner stream, then poll.
    Begin(T),
    /// Poll the operation that is under way.
    Resume(Lent),
}

/// The bytes of one accepted write on their way into the inner stream.
pub struct Drain {
    buffer: Vec<u8>,
    cursor: usize,
}

/// What a drain comes to after a write.
#[derive(Debug, PartialEq, Eq)]
pub enum Drained<E> {
    /// Bytes are left.
    Write,
    /// All bytes were written.
    Done,
    Failed(DrainError<E>),
}

/// What draining does after a write.
pub enum DrainStep<T, E, K> {
    /// Write these bytes, which are all that is left.
    Write { inner: T, bytes: Vec<u8> },
    /// The drain is over.
    Done(Result<(), WrapError<E, K>>),
}

impl Drain {
    pub closed spec fn wf(self) -> bool {
        self.cursor <= self.buffer@.len()
    }

    /// The bytes that have not been written.
    pub closed spec fn left(self) -> Seq<u8> {
        self.buffer@.skip(self.cursor as int)
    }

    /// The bytes to be written.
    pub fn remaining(&self) -> (r: Vec<u8>)
        requires
            self.wf(),
        ensures
            r@ == self.left(),
    {
        let mut bytes: Vec<u8> = Vec::new();
        let mut i: usize = self.cursor;
        while i < self.buffer.len()
            invariant
                self.cursor <= i <= self.buffer@.len(),
                bytes@ == self.buffer@.subrange(self.cursor as int, i as int),
            decreases self.buffer@.len() - i,
        {
            bytes.push(self.buffer[i]);
            i += 1;
            assert(bytes@ =~= self.buffer@.subrange(self.cursor as int, i as int));
        }
        assert(bytes@ =~= self.left());
        bytes
    }

    /// Take in the result of a write of all that was left. `returned` is how many
    /// bytes came back in the buffer. A write that was interrupted is made again
    /// at the same place: the bytes were acknowledged to the caller.
    pub fn written<E>(&mut self, result: Result<usize, E>, interrupted: bool, returned: usize) -> (r:
        Drained<E>)
        requires
            old(self).wf(),
        ensures
            final(self).wf(),
            drains_on(*old(self), *final(self), taken_by(old(self).left(), result, returned)),
            r == drain_outcome(old(self).left(), result, interrupted, returned),
            r is Done ==> final(self).left().len() == 0,
    {
        assert(self.left() =~= Seq::<u8>::empty() + self.left());
        match result {
            Err(error) => {
                if interrupted {
                    Drained::Write
                } else {
                    Drained::Failed(DrainError::Inner(error))
                }
            },
            Ok(count) => {
                let supplied: usize = self.buffer.len() - self.cursor;
                if count == 0 {
                    return Drained::Failed(DrainError::WriteZero);
                }
                if count > supplied || count > returned {
                    return Drained::Failed(DrainError::InvalidData);
                }
                self.cursor = self.cursor + count;
                assert(self.left() =~= old(self).left().skip(count as int));
                assert(old(self).left() =~= old(self).left().take(count as int) + self.left());
                if self.cursor == self.buffer.len() {
                    Drained::Done
                } else {
                    Drained::Write
                }
            },
        }
    }
}

fn copy_range(buffer: &Vec<u8>, from: usize, to: usize) -> (r: Vec<u8>)
    requires
        from <= to <= buffer@.len(),
    ensures
        r@ == buffer@.subrange(from as int, to as int),
{
    let mut bytes: Vec<u8> = Vec::new();
    let mut i: usize = from;
    while i < to
        invariant
            from <= i <= to <= buffer@.len(),
            bytes@ == buffer@.subrange(from as int, i as int),
        decreases to - i,
    {
        bytes.push(buffer[i]);
        i += 1;
        assert(bytes@ =~= buffer@.subrange(from as int, i as int));
    }
    bytes
}

impl<T, K: Copy> AsyncWrap<T, K> {
    /// The inner stream, while it is not lent.
    pub closed spec fn stream(self) -> Option<T> {
        self.inner
    }

    /// The operation that the inner stream is lent to.
    pub closed spec fn in_flight(self) -> Option<Lent> {
        self.lent
    }

    /// The kind of the error that ended a drain.
    pub closed spec fn failed(self) -> Option<FailureKind<K>> {
        self.write_error
    }

    /// The bytes that were read and not handed out yet.
    pub closed spec fn leftover(self) -> Seq<u8> {
        match self.read_buf {
            Some(leftover) => leftover.bytes(),
            None => Seq::empty(),
        }
    }

    /// All bytes that have been accepted, in order.
    pub closed spec fn accepted(self) -> Seq<u8> {
        self.accepted@
    }

    /// All bytes that the inner stream has taken, in order.
    pub closed spec fn delivered(self) -> Seq<u8> {
        self.delivered@
    }

    /// The bytes that were accepted and that the inner stream has not taken.
    pub open spec fn undelivered(self) -> Seq<u8> {
        self.accepted().skip(self.delivered().len() as int)
    }

    /// The inner stream is lent to at most one operation, to none after a drain
    /// has failed, to no read while bytes are left over, and no empty leftover is
    /// kept. The inner stream has taken what was accepted, but for the bytes of
    /// the drain that is under way or has failed.
    pub closed spec fn wf(self) -> bool {
        &&& self.inner is Some <==> self.lent is None
        &&& self.write_error is Some ==> self.lent is None
        &&& self.lent == Some(Lent::Read) ==> self.read_buf is None
        &&& self.read_buf matches Some(leftover) ==> leftover.wf()
        &&& self.drain is Some <==> self.lent == Some(Lent::Drain)
        &&& self.drain matches Some(drain) ==> drain.wf() && self.accepted@ == self.delivered@
            + drain.left()
        &&& self.drain is None && self.write_error is None ==> self.accepted@ == self.delivered@
        &&& self.delivered@.is_prefix_of(self.accepted@)
    }

    pub fn new(inner: T) -> (r: Self)
        ensures
            r.wf(),
            r.stream() == Some(inner),
            r.in_flight() is None,
            r.failed() is None,
            r.leftover() == Seq::<u8>::empty(),
            r.accepted() == Seq::<u8>::empty(),
            r.delivered() == Seq::<u8>::empty(),
    {
        AsyncWrap {
            inner: Some(inner),
            lent: None,
            write_error: None,
            read_buf: None,
            drain: None,
            accepted: Ghost(Seq::empty()),
            delivered: Ghost(Seq::empty()),
        }
    }

    /// Whether nothing is under way.
    pub fn is_idle(&self) -> (r: bool)
        requires
            self.wf(),
        ensures
            r == self.in_flight() is None,
    {
        self.lent.is_none()
    }

    /// Read up to `room` bytes. What is under way comes first: a read is gone on
    /// with, a flush and a drain are finished. Then bytes that are left over are
    /// handed out before any more are read, into a zeroed buffer of a fixed size.
    pub fn poll_read<E>(&mut self, room: usize) -> (r: ReadStep<T, E, K>)
        requires
            old(self).wf(),
        ensures
            final(self).wf(),
            final(self).failed() == old(self).failed(),
            reads_on(*old(self), *final(self), Seq::empty(), handed_by(r)),
            writes_on(*old(self), *final(self), Seq::empty(), Seq::empty()),
            if room == 0 {
                &&& r matches ReadStep::Done(Ok(bytes)) && bytes@.len() == 0
                &&& *final(self) == *old(self)
            } else if old(self).in_flight() is Some {
                &&& r == ReadStep::<T, E, K>::Resume(old(self).in_flight()->0)
                &&& *final(self) == *old(self)
            } else if old(self).failed() is Some {
                &&& r == ReadStep::<T, E, K>::Done(
                    Err(WrapError::DrainFailed(old(self).failed()->0)),
                )
                &&& *final(self) == *old(self)
            } else if old(self).leftover().len() > 0 {
                let count = if room <= old(self).leftover().len() {
                    room as int
                } else {
                    old(self).leftover().len() as int
                };
                &&& r matches ReadStep::Done(Ok(bytes)) && bytes@ == old(self).leftover().take(
                    count,
                )
                &&& final(self).leftover() == old(self).leftover().skip(count)
                &&& final(self).stream() == old(self).stream()
                &&& final(self).in_flight() is None
            } else {
                &&& r matches ReadStep::Begin { inner, buffer } && {
                    &&& old(self).stream() == Some(inner)
                    &&& buffer@.len() == BUFFER_SIZE
                    &&& forall|i: int| 0 <= i < buffer@.len() ==> #[trigger] buffer@[i] == 0
                }
                &&& final(self).in_flight() == Some(Lent::Read)
                &&& final(self).leftover().len() == 0
            },
    {
        assert(self.leftover() + Seq::<u8>::empty() =~= Seq::<u8>::empty() + self.leftover());
        assert(self.accepted@ + Seq::<u8>::empty() =~= self.accepted@);
        assert(self.delivered@ + Seq::<u8>::empty() =~= self.delivered@);
        if room == 0 {
            return ReadStep::Done(Ok(Vec::new()));
        }
        if let Some(lent) = self.lent {
            return ReadStep::Resume(lent);
        }
        if let Some(kind) = &self.write_error {
            return ReadStep::Done(Err(WrapError::DrainFailed(kind.copied())));
        }
        if let Some(leftover) = self.read_buf.take() {
            let available: usize = leftover.filled - leftover.advanced;
            let count: usize = if available <= room {
                available
            } else {
                room
            };
            let end: usize = leftover.advanced + count;
            let bytes = copy_range(&leftover.buffer, leftover.advanced, end);
            assert(bytes@ =~= old(self).leftover().take(count as int));
            let ghost all = leftover.bytes();
            if end < leftover.filled {
                self.read_buf =
                Some(
                    Leftover {
                        buffer: leftover.buffer,
                        advanced: end,
                        filled: leftover.filled,
                    },
                );
            }
            assert(self.leftover() =~= all.skip(count as int));
            assert(all + Seq::<u8>::empty() =~= bytes@ + self.leftover());
            return ReadStep::Done(Ok(bytes));
        }
        self.lent = Some(Lent::Read);
        match self.inner.take() {
            Some(inner) => ReadStep::Begin { inner, buffer: vec![0u8; BUFFER_SIZE] },
            None => ReadStep::Done(Err(WrapError::Busy)),
        }
    }

    /// Take in a read that is over: the inner stream comes back, and as many bytes
    /// as there is room for are handed out. The rest is left over.
    pub fn read_done<E>(
        &mut self,
        result: Result<usize, E>,
        buffer: Vec<u8>,
        inner: T,
        room: usize,
    ) -> (r: Result<Vec<u8>, WrapError<E, K>>)
        requires
            old(self).wf(),
            old(self).in_flight() == Some(Lent::Read),
        ensures
            final(self).wf(),
            final(self).in_flight() is None,
            final(self).stream() == Some(inner),
            final(self).failed() == old(self).failed(),
            reads_on(*old(self), *final(self), delivered_by(result, buffer@), handed_at_once(r)),
            writes_on(*old(self), *final(self), Seq::empty(), Seq::empty()),
            match result {
                Ok(count) => if count > buffer@.len() {
                    r == Err::<Vec<u8>, WrapError<E, K>>(WrapError::Overrun)
                        && final(self).leftover().len() == 0
                } else {
                    let handed = if count <= room {
                        count
                    } else {
                        room
                    };
                    &&& r matches Ok(bytes) && bytes@ == buffer@.take(handed as int)
                    &&& final(self).leftover() == buffer@.subrange(handed as int, count as int)
                },
                Err(error) => r == Err::<Vec<u8>, WrapError<E, K>>(WrapError::Inner(error))
                    && final(self).leftover().len() == 0,
            },
    {
        assert(self.leftover() =~= Seq::<u8>::empty());
        assert(self.accepted@ + Seq::<u8>::empty() =~= self.accepted@);
        assert(self.delivered@ + Seq::<u8>::empty() =~= self.delivered@);
        self.lent = None;
        self.inner = Some(inner);
        match result {
            Ok(count) => {
                if count > buffer.len() {
                    return Err(WrapError::Overrun);
                }
                let handed: usize = if count <= room {
                    count
                } else {
                    room
                };
                let bytes = copy_range(&buffer, 0, handed);
                assert(bytes@ =~= buffer@.take(handed as int));
                if handed < count {
                    self.read_buf = Some(Leftover { buffer, advanced: handed, filled: count });
                }
                assert(self.leftover() =~= buffer@.subrange(handed as int, count as int));
                assert(Seq::<u8>::empty() + buffer@.take(count as int) =~= bytes@
                    + self.leftover());
                Ok(bytes)
            },
            Err(error) => Err(WrapError::Inner(error)),
        }
    }

    /// Write some bytes. A flush and a drain that are under way are finished
    /// first; until then none of the bytes is taken. Then as many as a buffer
    /// holds are accepted.
    pub fn poll_write<E>(&mut self, bytes: &[u8]) -> (r: WriteStep<T, E, K>)
        requires
            old(self).wf(),
        ensures
            final(self).wf(),
            final(self).failed() == old(self).failed(),
            final(self).leftover() == old(self).leftover(),
            writes_on(*old(self), *final(self), took_by(r), Seq::empty()),
            if bytes@.len() == 0 {
                r == WriteStep::<T, E, K>::Done(Ok(0)) && *final(self) == *old(self)
            } else if old(self).in_flight() == Some(Lent::Flush) {
                r == WriteStep::<T, E, K>::Resume(Lent::Flush) && *final(self) == *old(self)
            } else if old(self).failed() is Some {
                &&& r == WriteStep::<T, E, K>::Done(
                    Err(WrapError::DrainFailed(old(self).failed()->0)),
                )
                &&& *final(self) == *old(self)
            } else if old(self).in_flight() == Some(Lent::Drain) {
                r == WriteStep::<T, E, K>::Resume(Lent::Drain) && *final(self) == *old(self)
            } else if old(self).in_flight() == Some(Lent::Read) {
                r == WriteStep::<T, E, K>::Done(Err(WrapError::Busy)) && *final(self) == *old(self)
            } else {
                let count = if bytes@.len() <= BUFFER_SIZE {
                    bytes@.len() as int
                } else {
                    BUFFER_SIZE as int
                };
                &&& r matches WriteStep::Accepted { inner, bytes: taken } && old(self).stream()
                    == Some(inner) && taken@ == bytes@.take(count)
                &&& final(self).in_flight() == Some(Lent::Drain)
            },
    {
        assert(self.accepted@ + Seq::<u8>::empty() =~= self.accepted@);
        assert(self.delivered@ + Seq::<u8>::empty() =~= self.delivered@);
        if bytes.len() == 0 {
            return WriteStep::Done(Ok(0));
        }
        if let Some(Lent::Flush) = self.lent {
            return WriteStep::Resume(Lent::Flush);
        }
        if let Some(kind) = &self.write_error {
            return WriteStep::Done(Err(WrapError::DrainFailed(kind.copied())));
        }
        if let Some(Lent::Drain) = self.lent {
            return WriteStep::Resume(Lent::Drain);
        }
        let inner = match self.inner.take() {
            Some(inner) => inner,
            None => {
                return WriteStep::Done(Err(WrapError::Busy));
            },
        };
        self.lent = Some(Lent::Drain);
        let count: usize = if bytes.len() <= BUFFER_SIZE {
            bytes.len()
        } else {
            BUFFER_SIZE
        };
        let mut buffer: Vec<u8> = Vec::new();
        let mut i: usize = 0;
        while i < count
            invariant
                i <= count <= bytes@.len(),
                buffer@ == bytes@.take(i as int),
            decreases count - i,
        {
            buffer.push(bytes[i]);
            i += 1;
            assert(buffer@ =~= bytes@.take(i as int));
        }
        let drain = Drain { buffer, cursor: 0 };
        assert(drain.left() =~= bytes@.take(count as int));
        let taken = drain.remaining();
        self.drain = Some(drain);
        self.accepted = Ghost(self.accepted@ + drain.left());
        WriteStep::Accepted { inner, bytes: taken }
    }

    /// Take in a write of all that was left of a drain: `returned` is how many
    /// bytes came back in the buffer. What is left is written next. A write that
    /// was interrupted is made again: its bytes were acknowledged to the caller.
    /// A drain that failed is remembered: no bytes are accepted, read or flushed
    /// after bytes that were accepted got lost.
    pub fn drain_written<E>(
        &mut self,
        result: Result<usize, (E, K)>,
        interrupted: bool,
        returned: usize,
        inner: T,
    ) -> (r: DrainStep<T, E, K>)
        requires
            old(self).wf(),
            old(self).in_flight() == Some(Lent::Drain),
        ensures
            final(self).wf(),
            final(self).leftover() == old(self).leftover(),
            writes_on(
                *old(self),
                *final(self),
                Seq::empty(),
                taken_by(old(self).undelivered(), result, returned),
            ),
            match drain_outcome(old(self).undelivered(), result, interrupted, returned) {
                Drained::Write => {
                    &&& r matches DrainStep::Write { inner: lent, bytes } && lent == inner && bytes@
                        == final(self).undelivered()
                    &&& final(self).in_flight() == Some(Lent::Drain)
                    &&& final(self).failed() is None
                },
                Drained::Done => {
                    &&& r matches DrainStep::Done(Ok(_))
                    &&& final(self).in_flight() is None
                    &&& final(self).stream() == Some(inner)
                    &&& final(self).failed() is None
                    &&& final(self).delivered() == final(self).accepted()
                },
                Drained::Failed(error) => {
                    &&& r matches DrainStep::Done(Err(reported)) && reported == WrapError::<
                        E,
                        K,
                    >::Drain(without_kind(error))
                    &&& final(self).in_flight() is None
                    &&& final(self).stream() == Some(inner)
                    &&& final(self).failed() == Some(failure_kind(error))
                },
            },
    {
        let mut drain = match self.drain.take() {
            Some(drain) => drain,
            None => Drain { buffer: Vec::new(), cursor: 0 },
        };
        let ghost before = drain;
        proof {
            assert(before.left() =~= old(self).undelivered());
            assert(self.accepted@ + Seq::<u8>::empty() =~= self.accepted@);
        }
        let outcome = drain.written(result, interrupted, returned);
        let ghost wrote = taken_by(before.left(), result, returned);
        self.delivered = Ghost(self.delivered@ + wrote);
        proof {
            assert(old(self).delivered@ + (wrote + drain.left()) =~= (old(self).delivered@ + wrote)
                + drain.left());
            assert(self.accepted@ == self.delivered@ + drain.left());
            assert(self.undelivered() =~= drain.left());
            assert(self.delivered@.is_prefix_of(self.accepted@));
        }
        match outcome {
            Drained::Write => {
                let bytes = drain.remaining();
                self.drain = Some(drain);
                DrainStep::Write { inner, bytes }
            },
            Drained::Done => {
                assert(self.accepted@ =~= self.delivered@);
                self.lent = None;
                self.inner = Some(inner);
                DrainStep::Done(Ok(()))
            },
            Drained::Failed(error) => {
                self.lent = None;
                self.inner = Some(inner);
                let (error, kind) = match error {
                    DrainError::Inner((error, kind)) => (
                        DrainError::Inner(error),
                        FailureKind::Inner(kind),
                    ),
                    DrainError::WriteZero => (
                        DrainError::WriteZero,
                        FailureKind::Own(ErrorKind::WriteZero),
                    ),
                    DrainError::InvalidData => (
                        DrainError::InvalidData,
                        FailureKind::Own(ErrorKind::InvalidData),
                    ),
                };
                self.write_error = Some(kind);
                DrainStep::Done(Err(WrapError::Drain(error)))
            },
        }
    }

    /// Flush. A drain that is under way is finished first, so that the inner stream
    /// has taken all that was accepted when it is flushed. Shutting down is the
    /// same.
    pub fn poll_flush<E>(&mut self) -> (r: FlushStep<T, E, K>)
        requires
            old(self).wf(),
        ensures
            final(self).wf(),
            final(self).failed() == old(self).failed(),
            final(self).leftover() == old(self).leftover(),
            writes_on(*old(self), *final(self), Seq::empty(), Seq::empty()),
            r is Begin ==> final(self).delivered() == final(self).accepted(),
            if old(self).failed() is Some {
                &&& r == FlushStep::<T, E, K>::Done(
                    Err(WrapError::DrainFailed(old(self).failed()->0)),
                )
                &&& *final(self) == *old(self)
            } else if old(self).in_flight() == Some(Lent::Read) {
                r == FlushStep::<T, E, K>::Done(Err(WrapError::Busy)) && *final(self) == *old(self)
            } else if old(self).in_flight() is Some {
                &&& r == FlushStep::<T, E, K>::Resume(old(self).in_flight()->0)
                &&& *final(self) == *old(self)
            } else {
                &&& r matches FlushStep::Begin(inner) && old(self).stream() == Some(inner)
                &&& final(self).in_flight() == Some(Lent::Flush)
            },
    {
        assert(self.accepted@ + Seq::<u8>::empty() =~= self.accepted@);
        assert(self.delivered@ + Seq::<u8>::empty() =~= self.delivered@);
        if let Some(kind) = &self.write_error {
            return FlushStep::Done(Err(WrapError::DrainFailed(kind.copied())));
        }
        if let Some(lent) = self.lent {
            return match lent {
                Lent::Read => FlushStep::Done(Err(WrapError::Busy)),
                _ => FlushStep::Resume(lent),
            };
        }
        self.lent = Some(Lent::Flush);
        match self.inner.take() {
            Some(inner) => FlushStep::Begin(inner),
            None => FlushStep::Done(Err(WrapError::Busy)),
        }
    }

    /// Take in a flush that is over.
    pub fn flush_done<E>(&mut self, result: Result<(), E>, inner: T) -> (r: Result<
        (),
        WrapError<E, K>,
    >)
        requires
            old(self).wf(),
            old(self).in_flight() == Some(Lent::Flush),
        ensures
            final(self).wf(),
            final(self).in_flight() is None,
            final(self).stream() == Some(inner),
            final(self).leftover() == old(self).leftover(),
            final(self).failed() == old(self).failed(),
            writes_on(*old(self), *final(self), Seq::empty(), Seq::empty()),
            final(self).delivered() == final(self).accepted(),
            match result {
                Ok(_) => r is Ok,
                Err(error) => r == Err::<(), WrapError<E, K>>(WrapError::Inner(error)),
            },
    {
        assert(self.accepted@ + Seq::<u8>::empty() =~= self.accepted@);
        assert(self.delivered@ + Seq::<u8>::empty() =~= self.delivered@);
        self.lent = None;
        self.inner = Some(inner);
        match result {
            Ok(_) => Ok(()),
            Err(error) => Err(WrapError::Inner(error)),
        }
    }
}

/// One step of a reader: `delivered` is what the inner stream gave in it, and
/// `handed` what the caller got.
pub open spec fn reads_on<T, K: Copy>(
    before: AsyncWrap<T, K>,
    after: AsyncWrap<T, K>,
    delivered: Seq<u8>,
    handed: Seq<u8>,
) -> bool {
    before.leftover() + delivered == handed + after.leftover()
}

/// What a step of reading hands out.
pub open spec fn handed_by<T, E, K>(step: ReadStep<T, E, K>) -> Seq<u8> {
    match step {
        ReadStep::Done(Ok(bytes)) => bytes@,
        _ => Seq::empty(),
    }
}

/// What a read of the inner stream delivers: nothing where it failed, or claims
/// more than the buffer holds.
pub open spec fn delivered_by<E>(result: Result<usize, E>, buffer: Seq<u8>) -> Seq<u8> {
    match result {
        Ok(count) if count <= buffer.len() => buffer.take(count as int),
        _ => Seq::empty(),
    }
}

/// What a finished read hands out.
pub open spec fn handed_at_once<E>(result: Result<Vec<u8>, E>) -> Seq<u8> {
    match result {
        Ok(bytes) => bytes@,
        Err(_) => Seq::empty(),
    }
}

/// One step of a drain, in which the inner stream took the bytes in `wrote`.
pub open spec fn drains_on(before: Drain, after: Drain, wrote: Seq<u8>) -> bool {
    before.left() == wrote + after.left()
}

/// What a write takes of the bytes that are left: nothing where it failed, or
/// claims more than it was given.
pub open spec fn taken_by<E>(left: Seq<u8>, result: Result<usize, E>, returned: usize) -> Seq<u8> {
    match result {
        Ok(count) if count <= left.len() && count <= returned => left.take(count as int),
        _ => Seq::empty(),
    }
}

/// What a drain with these bytes left comes to after a write of them.
pub open spec fn drain_outcome<E>(
    left: Seq<u8>,
    result: Result<usize, E>,
    interrupted: bool,
    returned: usize,
) -> Drained<E> {
    match result {
        Err(error) => if interrupted {
            Drained::Write
        } else {
            Drained::Failed(DrainError::Inner(error))
        },
        Ok(count) => if count == 0 {
            Drained::Failed(DrainError::WriteZero)
        } else if count > left.len() || count > returned {
            Drained::Failed(DrainError::InvalidData)
        } else if count == left.len() {
            Drained::Done
        } else {
            Drained::Write
        },
    }
}

/// The error of a drain, without its kind.
pub open spec fn without_kind<E, K>(error: DrainError<(E, K)>) -> DrainError<E> {
    match error {
        DrainError::Inner((error, _)) => DrainError::Inner(error),
        DrainError::WriteZero => DrainError::WriteZero,
        DrainError::InvalidData => DrainError::InvalidData,
    }
}

/// The kind of the error of a drain.
pub open spec fn failure_kind<E, K>(error: DrainError<(E, K)>) -> FailureKind<K> {
    match error {
        DrainError::Inner((_, kind)) => FailureKind::Inner(kind),
        DrainError::WriteZero => FailureKind::Own(ErrorKind::WriteZero),
        DrainError::InvalidData => FailureKind::Own(ErrorKind::InvalidData),
    }
}

/// One step of a writer, in which the bytes in `took` were accepted and the inner
/// stream took those in `wrote`.
pub open spec fn writes_on<T, K: Copy>(
    before: AsyncWrap<T, K>,
    after: AsyncWrap<T, K>,
    took: Seq<u8>,
    wrote: Seq<u8>,
) -> bool {
    &&& after.accepted() == before.accepted() + took
    &&& after.delivered() == before.delivered() + wrote
}

/// What a step of writing accepts.
pub open spec fn took_by<T, E, K>(step: WriteStep<T, E, K>) -> Seq<u8> {
    match step {
        WriteStep::Accepted { inner: _, bytes } => bytes@,
        _ => Seq::empty(),
    }
}

/// Reads lose, repeat and reorder nothing: over any run of steps, what callers got
/// followed by what is left over at the end is what was left over at the start
/// followed by what the inner stream delivered.
pub proof fn reads_preserve_the_bytes<T, K: Copy>(
    states: Seq<AsyncWrap<T, K>>,
    delivered: Seq<Seq<u8>>,
    handed: Seq<Seq<u8>>,
)
    requires
        states.len() == delivered.len() + 1,
        handed.len() == delivered.len(),
        forall|i: int|
            0 <= i < delivered.len() ==> reads_on(
                states[i],
                states[i + 1],
                #[trigger] delivered[i],
                handed[i],
            ),
    ensures
        states.first().leftover() + flat(delivered) == flat(handed) + states.last().leftover(),
    decreases delivered.len(),
{
    if delivered.len() > 0 {
        let last = delivered.len() - 1;
        assert forall|i: int| 0 <= i < last implies reads_on(
            states.drop_last()[i],
            states.drop_last()[i + 1],
            #[trigger] delivered.drop_last()[i],
            handed.drop_last()[i],
        ) by {
            assert(delivered.drop_last()[i] == delivered[i]);
        }
        reads_preserve_the_bytes(states.drop_last(), delivered.drop_last(), handed.drop_last());
        let start = states.first().leftover();
        let got = flat(handed.drop_last());
        let between = states[last].leftover();
        assert(reads_on(states[last], states[last + 1], delivered[last], handed[last]));
        assert(start + flat(delivered) =~= (start + flat(delivered.drop_last()))
            + delivered.last());
        assert((got + between) + delivered.last() =~= got + (between + delivered.last()));
        assert(got + (handed.last() + states.last().leftover()) =~= flat(handed)
            + states.last().leftover());
    } else {
        assert(states.first().leftover() + flat(delivered) =~= flat(handed)
            + states.last().leftover());
    }
}

/// A drain delivers what was accepted, in order and once: over any run of writes,
/// what the inner stream took followed by what is left is what was accepted.
pub proof fn drains_deliver_in_order(states: Seq<Drain>, wrote: Seq<Seq<u8>>)
    requires
        states.len() == wrote.len() + 1,
        forall|i: int|
            0 <= i < wrote.len() ==> drains_on(states[i], states[i + 1], #[trigger] wrote[i]),
    ensures
        states.first().left() == flat(wrote) + states.last().left(),
    decreases wrote.len(),
{
    if wrote.len() > 0 {
        let last = wrote.len() - 1;
        assert forall|i: int| 0 <= i < last implies drains_on(
            states.drop_last()[i],
            states.drop_last()[i + 1],
            #[trigger] wrote.drop_last()[i],
        ) by {
            assert(wrote.drop_last()[i] == wrote[i]);
        }
        drains_deliver_in_order(states.drop_last(), wrote.drop_last());
        assert(drains_on(states[last], states[last + 1], wrote[last]));
        assert(flat(wrote.drop_last()) + (wrote.last() + states.last().left()) =~= flat(wrote)
            + states.last().left());
    } else {
        assert(states.first().left() =~= flat(wrote) + states.last().left());
    }
}

/// What the steps of a writer add up to.
proof fn lemma_writes<T, K: Copy>(
    states: Seq<AsyncWrap<T, K>>,
    took: Seq<Seq<u8>>,
    wrote: Seq<Seq<u8>>,
)
    requires
        states.len() == took.len() + 1,
        wrote.len() == took.len(),
        forall|i: int|
            0 <= i < took.len() ==> writes_on(
                states[i],
                states[i + 1],
                #[trigger] took[i],
                wrote[i],
            ),
    ensures
        states.last().accepted() == states.first().accepted() + flat(took),
        states.last().delivered() == states.first().delivered() + flat(wrote),
    decreases took.len(),
{
    if took.len() > 0 {
        let last = took.len() - 1;
        assert forall|i: int| 0 <= i < last implies writes_on(
            states.drop_last()[i],
            states.drop_last()[i + 1],
            #[trigger] took.drop_last()[i],
            wrote.drop_last()[i],
        ) by {
            assert(took.drop_last()[i] == took[i]);
        }
        lemma_writes(states.drop_last(), took.drop_last(), wrote.drop_last());
        assert(writes_on(states[last], states[last + 1], took[last], wrote[last]));
        assert((states.first().accepted() + flat(took.drop_last())) + took.last()
            =~= states.first().accepted() + flat(took));
        assert((states.first().delivered() + flat(wrote.drop_last())) + wrote.last()
            =~= states.first().delivered() + flat(wrote));
    } else {
        assert(states.first().accepted() + flat(took) =~= states.first().accepted());
        assert(states.first().delivered() + flat(wrote) =~= states.first().delivered());
    }
}

/// A flush delivers what was accepted: over any run of steps from a new adapter,
/// however many batches were accepted and however often their writes were cut
/// short or interrupted, the inner stream has taken exactly the bytes that were
/// accepted, in order and once, whenever a flush begins or is under way, and
/// whenever nothing is.
pub proof fn flush_delivers_what_was_accepted<T, K: Copy>(
    states: Seq<AsyncWrap<T, K>>,
    took: Seq<Seq<u8>>,
    wrote: Seq<Seq<u8>>,
)
    requires
        states.len() == took.len() + 1,
        wrote.len() == took.len(),
        states.first().accepted() == Seq::<u8>::empty(),
        states.first().delivered() == Seq::<u8>::empty(),
        forall|i: int|
            0 <= i < took.len() ==> writes_on(
                states[i],
                states[i + 1],
                #[trigger] took[i],
                wrote[i],
            ),
        states.last().wf(),
    ensures
        flat(wrote).is_prefix_of(flat(took)),
        states.last().failed() is None && states.last().in_flight() != Some(Lent::Drain) ==> flat(
            wrote,
        ) == flat(took),
{
    lemma_writes(states, took, wrote);
    assert(Seq::<u8>::empty() + flat(took) =~= flat(took));
    assert(Seq::<u8>::empty() + flat(wrote) =~= flat(wrote));
}

/// A read hands out what is left over first, up to the room there is and in order, and keeps the rest.
/// Only with nothing left over is the inner stream read, into a zeroed buffer of 4096 bytes. What is
/// under way comes first; a drain that failed is told of.
pub proof fn reads_hand_out_what_is_left_over<T, K: Copy, E>(
    before: AsyncWrap<T, K>,
    after: AsyncWrap<T, K>,
    room: usize,
    r: ReadStep<T, E, K>,
    i: int,
)
    requires
        exists|it: &mut AsyncWrap<T, K>|
            *it == before && *final(it) == after && #[trigger] call_ensures(
                AsyncWrap::<T, K>::poll_read::<E>,
                (it, room),
                r,
            ),
        before.wf(),
    ensures
        room == 0 ==> (r matches ReadStep::Done(Ok(bytes)) && bytes@.len() == 0) && after == before,
        room > 0 && before.in_flight() is Some ==> (r matches ReadStep::Resume(lent)
            && before.in_flight()
            == Some(lent)) && after == before,
        room > 0 && before.in_flight() is None && before.failed() is Some
            ==> (r matches ReadStep::Done(
            Err(WrapError::DrainFailed(kind)),
        ) && before.failed() == Some(kind)) && after == before,
        room > 0 && before.in_flight() is None && before.failed() is None
            && before.leftover().len() > 0
            ==> (r matches ReadStep::Done(Ok(bytes)) && (bytes@.len() == room
                || (bytes@.len() < room
            && bytes@.len() == before.leftover().len())) && bytes@ + after.leftover()
            == before.leftover() && (0 <= i < bytes@.len() ==> bytes@[i] == before.leftover()[i]))
            && after.in_flight() is None && after.stream() == before.stream(),
        room > 0 && before.in_flight() is None && before.failed() is None
            && before.leftover().len() == 0
            ==> (r matches ReadStep::Begin { inner, buffer } && before.stream() == Some(inner)
            && buffer@.len() == 4096 && (0 <= i < 4096 ==> buffer@[i] == 0)) && (after.in_flight()
            matches Some(lent) && lent is Read),
        after.accepted() == before.accepted() && after.delivered() == before.delivered()
            && after.failed() == before.failed(),
{
    if let ReadStep::Done(Ok(bytes)) = r {
        assert(before.leftover() + Seq::<u8>::empty() =~= before.leftover());
    }
    assert(before.accepted() + Seq::<u8>::empty() =~= before.accepted());
    assert(before.delivered() + Seq::<u8>::empty() =~= before.delivered());
}

/// A read that is over hands out the bytes that came, up to the room there is, and keeps the rest; the
/// inner stream comes back. One that failed, or that claims more than its buffer holds, hands out
/// nothing.
pub proof fn finished_reads_lose_nothing<T, K: Copy, E>(
    before: AsyncWrap<T, K>,
    after: AsyncWrap<T, K>,
    result: Result<usize, E>,
    buffer: Vec<u8>,
    inner: T,
    room: usize,
    r: Result<Vec<u8>, WrapError<E, K>>,
)
    requires
        exists|it: &mut AsyncWrap<T, K>|
            *it == before && *final(it) == after && #[trigger] call_ensures(
                AsyncWrap::<T, K>::read_done::<E>,
                (it, result, buffer, inner, room),
                r,
            ),
        before.wf() && before.in_flight() == Some(Lent::Read),
    ensures
        result matches Ok(count) ==> count <= buffer@.len() ==> (r matches Ok(bytes)
            && (bytes@.len() == room
            || (bytes@.len() < room && bytes@.len() == count))
                && bytes@.len() + after.leftover().len()
            == count && bytes@ + after.leftover() == buffer@.take(count as int)),
        result matches Ok(count) ==> count > buffer@.len() ==> (r matches Err(error)
            && error is Overrun)
            && after.leftover().len() == 0,
        result matches Err(error) ==> (r matches Err(WrapError::Inner(own)) && own == error)
            && after.leftover().len() == 0,
        after.in_flight() is None && after.stream() == Some(inner),
        after.accepted() == before.accepted() && after.delivered() == before.delivered()
            && after.failed() == before.failed(),
{
    if let Ok(count) = result {
        if count <= buffer@.len() {
            if let Ok(bytes) = r {
                assert(bytes@ + after.leftover() =~= buffer@.take(count as int));
            }
        }
    }
    assert(before.accepted() + Seq::<u8>::empty() =~= before.accepted());
    assert(before.delivered() + Seq::<u8>::empty() =~= before.delivered());
}

/// A write accepts the first bytes that it is given, byte for byte, as many as there are up to 4096, and
/// only those; they go to the inner stream. What is under way comes first, a read refuses it, and a
/// drain that failed is told of: then nothing is accepted.
pub proof fn writes_accept_the_first_bytes<T, K: Copy, E>(
    before: AsyncWrap<T, K>,
    after: AsyncWrap<T, K>,
    bytes: &[u8],
    r: WriteStep<T, E, K>,
    i: int,
)
    requires
        exists|it: &mut AsyncWrap<T, K>|
            *it == before && *final(it) == after && #[trigger] call_ensures(
                AsyncWrap::<T, K>::poll_write::<E>,
                (it, bytes),
                r,
            ),
        before.wf(),
    ensures
        bytes@.len() == 0 ==> (r matches WriteStep::Done(Ok(count)) && count == 0),
        r matches WriteStep::Accepted { inner, bytes: taken } ==> {
            &&& before.stream() == Some(inner)
            &&& taken@.len() <= 4096 && taken@.len() <= bytes@.len()
            &&& taken@.len() == 4096 || taken@.len() == bytes@.len()
            &&& 0 <= i < taken@.len() ==> taken@[i] == bytes@[i]
            &&& after.accepted() == before.accepted() + taken@
            &&& after.in_flight() == Some(Lent::Drain)
        },
        !(r is Accepted) ==> after == before,
        r is Accepted <==> bytes@.len() > 0 && before.in_flight() is None
            && before.failed() is None,
        bytes@.len() > 0 && before.in_flight() == Some(Lent::Read) ==> (r matches WriteStep::Done(
            Err(error),
        ) && error is Busy),
        bytes@.len() > 0 && (before.in_flight() == Some(Lent::Drain) || before.in_flight() == Some(
            Lent::Flush,
        )) ==> (r matches WriteStep::Resume(lent) && before.in_flight() == Some(lent)),
        bytes@.len() > 0 && before.failed() is Some ==> (r matches WriteStep::Done(
            Err(WrapError::DrainFailed(kind)),
        ) && before.failed() == Some(kind)),
        after.delivered() == before.delivered() && after.leftover() == before.leftover()
            && after.failed() == before.failed(),
{
    assert(before.delivered() + Seq::<u8>::empty() =~= before.delivered());
}

/// A drain delivers what was accepted and not taken yet, in order: what a write took counts, what is left
/// is written next, and it is over exactly when nothing is left. An interrupted write is made again; any
/// other failure, a write of nothing and a count that is too large end it, and are remembered.
pub proof fn drains_deliver_what_was_accepted<T, K: Copy, E>(
    before: AsyncWrap<T, K>,
    after: AsyncWrap<T, K>,
    count: usize,
    error: E,
    kind: K,
    result: Result<usize, (E, K)>,
    interrupted: bool,
    returned: usize,
    inner: T,
    r: DrainStep<T, E, K>,
)
    requires
        exists|it: &mut AsyncWrap<T, K>|
            *it == before && *final(it) == after && #[trigger] call_ensures(
                AsyncWrap::<T, K>::drain_written::<E>,
                (it, result, interrupted, returned, inner),
                r,
            ),
        before.wf() && before.in_flight() == Some(Lent::Drain),
        before.delivered().len() <= before.accepted().len(),
    ensures
        ({
            let left = before.accepted().skip(before.delivered().len() as int);
            &&& result == Ok::<usize, (E, K)>(count) && 0 < count < left.len() && count
                <= returned ==> (r
                matches DrainStep::Write { inner: own, bytes } && own == inner && bytes@
                    == left.skip(
                count as int,
            )) && after.delivered() == before.delivered() + left.take(count as int)
            &&& result == Ok::<usize, (E, K)>(count) && 0 < count == left.len() && count
                <= returned ==> (r
                matches DrainStep::Done(Ok(_))) && after.delivered() == before.accepted()
                && after.in_flight() is None && after.failed() is None
            &&& result == Err::<usize, (E, K)>((error, kind)) && interrupted ==> (r matches
                DrainStep::Write { inner: own, bytes } && own == inner && bytes@ == left)
                && after.delivered() == before.delivered()
            &&& result == Err::<usize, (E, K)>((error, kind)) && !interrupted ==> (r matches
                DrainStep::Done(Err(WrapError::Drain(DrainError::Inner(own)))) && own == error)
                && after.failed() == Some(FailureKind::Inner(kind))
            &&& result == Ok::<usize, (E, K)>(0) ==> (r matches DrainStep::Done(
                Err(WrapError::Drain(own)),
            ) && own is WriteZero) && after.failed() == Some(
                FailureKind::<K>::Own(ErrorKind::WriteZero),
            )
            &&& result == Ok::<usize, (E, K)>(count) && (count > left.len()
                || (count > returned && count
                > 0)) ==> (r matches DrainStep::Done(Err(WrapError::Drain(own)))
                    && own is InvalidData)
                && after.failed() == Some(FailureKind::<K>::Own(ErrorKind::InvalidData))
        }),
        r is Done ==> after.in_flight() is None && after.stream() == Some(inner),
        after.accepted() == before.accepted() && after.leftover() == before.leftover(),
{
    let left = before.accepted().skip(before.delivered().len() as int);
    assert(before.accepted() + Seq::<u8>::empty() =~= before.accepted());
    assert(before.delivered() + Seq::<u8>::empty() =~= before.delivered());
    if let Ok(own) = result {
        if own <= left.len() && own <= returned {
            assert(after.accepted().skip(after.delivered().len() as int) =~= left.skip(
                own as int,
            ));
        }
    } else {
        assert(after.accepted().skip(after.delivered().len() as int) =~= left);
    }
}

/// A flush begins only when the inner stream has taken all that was accepted; what is under way comes
/// first, a read refuses it, and a drain that failed is told of. It ends as the inner stream said.
pub proof fn flushes_come_after_all_that_was_accepted<T, K: Copy, E>(
    before: AsyncWrap<T, K>,
    after: AsyncWrap<T, K>,
    flushing: AsyncWrap<T, K>,
    done: AsyncWrap<T, K>,
    r: FlushStep<T, E, K>,
    result: Result<(), E>,
    inner: T,
    ended: Result<(), WrapError<E, K>>,
)
    requires
        exists|it: &mut AsyncWrap<T, K>|
            *it == before && *final(it) == after && #[trigger] call_ensures(
                AsyncWrap::<T, K>::poll_flush::<E>,
                (it,),
                r,
            ),
        before.wf(),
        exists|it: &mut AsyncWrap<T, K>|
            *it == flushing && *final(it) == done && #[trigger] call_ensures(
                AsyncWrap::<T, K>::flush_done::<E>,
                (it, result, inner),
                ended,
            ),
        flushing.wf() && flushing.in_flight() == Some(Lent::Flush),
    ensures
        r is Begin <==> before.in_flight() is None && before.failed() is None,
        r matches FlushStep::Begin(own) ==> before.stream() == Some(own) && after.in_flight()
            == Some(
            Lent::Flush,
        ) && after.delivered() == after.accepted() && after.accepted() == before.accepted(),
        before.failed() matches Some(kind) ==> (r matches FlushStep::Done(
            Err(WrapError::DrainFailed(own)),
        ) && own == kind),
        before.failed() is None && before.in_flight() == Some(Lent::Read)
            ==> (r matches FlushStep::Done(
            Err(error),
        ) && error is Busy),
        before.failed() is None && (before.in_flight() == Some(Lent::Drain) || before.in_flight()
            == Some(Lent::Flush)) ==> (r matches FlushStep::Resume(lent) && before.in_flight()
            == Some(lent)),
        !(r is Begin) ==> after == before,
        ended is Ok <==> result is Ok,
        result matches Err(error) ==> (ended matches Err(WrapError::Inner(own)) && own == error),
        done.in_flight() is None && done.stream() == Some(inner) && done.accepted()
            == flushing.accepted() && done.delivered() == flushing.accepted(),
{
    assert(before.accepted() + Seq::<u8>::empty() =~= before.accepted());
    assert(flushing.accepted() + Seq::<u8>::empty() =~= flushing.accepted());
}

/// An error of the adapter is of its kind: the one that the inner stream gave to a drain, or its own.
pub proof fn adapter_errors_are_of_their_kinds<E, K: Copy>(
    error: WrapError<E, K>,
    drained: DrainError<E>,
    kind: Option<FailureKind<K>>,
    text: Option<&'static str>,
    own: Option<ErrorKind>,
)
    requires
        call_ensures(WrapError::<E, K>::kind, (&error,), kind),
        call_ensures(WrapError::<E, K>::message, (&error,), text),
        call_ensures(DrainError::<E>::kind, (&drained,), own),
    ensures
        error is Inner ==> kind is None,
        error is Busy ==> kind == Some(FailureKind::<K>::Own(ErrorKind::Other)),
        error is Overrun ==> kind == Some(FailureKind::<K>::Own(ErrorKind::InvalidData)),
        error matches WrapError::DrainFailed(later) ==> kind == Some(later),
        error matches WrapError::Drain(first) ==> match first {
            DrainError::Inner(_) => kind is None,
            DrainError::WriteZero => kind == Some(FailureKind::<K>::Own(ErrorKind::WriteZero)),
            DrainError::InvalidData => kind == Some(FailureKind::<K>::Own(ErrorKind::InvalidData)),
        },
        text is Some <==> error is DrainFailed || error is Busy || error is Overrun,
        drained is Inner ==> own is None,
        drained is WriteZero ==> own == Some(ErrorKind::WriteZero),
        drained is InvalidData ==> own == Some(ErrorKind::InvalidData),
{
}

/// A new adapter holds its stream and nothing else.
pub proof fn new_adapters_hold_their_stream<T, K: Copy>(
    inner: T,
    r: AsyncWrap<T, K>,
    idle: bool,
)
    requires
        call_ensures(AsyncWrap::<T, K>::new, (inner,), r),
        call_ensures(AsyncWrap::<T, K>::is_idle, (&r,), idle),
    ensures
        r.stream() == Some(inner) && idle && r.in_flight() is None && r.failed() is None,
        r.leftover().len() == 0 && r.accepted().len() == 0 && r.delivered().len() == 0,
{
}

/// A drain writes what is left of its bytes, and takes off the front exactly what was taken.
pub proof fn drains_take_off_the_front<E>(
    before: Drain,
    after: Drain,
    bytes: Vec<u8>,
    result: Result<usize, E>,
    interrupted: bool,
    returned: usize,
    r: Drained<E>,
    count: usize,
    error: E,
)
    requires
        before.wf(),
        call_ensures(Drain::remaining, (&before,), bytes),
        exists|it: &mut Drain|
            *it == before && *final(it) == after && #[trigger] call_ensures(
                Drain::written::<E>,
                (it, result, interrupted, returned),
                r,
            ),
    ensures
        bytes@ == before.left(),
        result == Ok::<usize, E>(count) && 0 < count <= before.left().len() && count
            <= returned ==> after.left()
            == before.left().skip(count as int) && (r is Done <==> count
                == before.left().len()) && (r is
            Write <==> count < before.left().len()),
        result == Ok::<usize, E>(0) ==> (r matches Drained::Failed(own) && own is WriteZero)
            && after.left()
            == before.left(),
        result == Ok::<usize, E>(count) && count > 0 && (count > before.left().len()
            || count > returned)
            ==> (r matches Drained::Failed(own) && own is InvalidData) && after.left()
            == before.left(),
        result == Err::<usize, E>(error) ==> after.left() == before.left() && if interrupted {
            r is Write
        } else {
            r matches Drained::Failed(DrainError::Inner(own)) && own == error
        },
{
    assert(Seq::<u8>::empty() + after.left() =~= after.left());
    if let Ok(own) = result {
        if own <= before.left().len() && own <= returned {
            assert(after.left() =~= before.left().skip(own as int));
        }
    }
}

} // verus!
