//! Buffers that operations read from and write to.

use vstd::prelude::*;

use crate::op::io_util::total_len;

verus! {

/// A buffer with bytes to be sent.
pub trait IoBuf: Sized {
    /// The number of bytes that are there to be sent.
    spec fn filled(&self) -> usize;

    fn buf_len(&self) -> (r: usize)
        ensures
            r == self.filled(),
    ;
}

/// A buffer that can be received into.
pub trait IoBufMut: IoBuf {
    /// The number of bytes that the buffer has room for.
    spec fn room(&self) -> usize;

    fn buf_capacity(&self) -> (r: usize)
        ensures
            r == self.room(),
    ;

    /// `after` is what `before` becomes once its first `len` bytes have been
    /// received.
    spec fn initialized(before: Self, len: usize, after: Self) -> bool;

    /// Record that the first `len` bytes have been received.
    fn set_buf_init(&mut self, len: usize)
        requires
            len <= old(self).room(),
        ensures
            Self::initialized(*old(self), len, *final(self)),
    ;
}

/// A buffer with spare room behind the bytes that are there.
pub struct ByteBuf {
    /// All bytes of the buffer, received or not.
    pub storage: Vec<u8>,
    /// How many of them, from the front, hold data.
    pub len: usize,
}

impl ByteBuf {
    /// An empty buffer with room for `capacity` bytes.
    pub fn with_capacity(capacity: usize) -> (r: Self)
        ensures
            r.storage@.len() == capacity,
            r.len == 0,
    {
        ByteBuf { storage: vec![0u8; capacity], len: 0 }
    }

    /// A full buffer of the given bytes.
    pub fn from_vec(bytes: Vec<u8>) -> (r: Self)
        ensures
            r.storage@ == bytes@,
            r.len == bytes@.len(),
    {
        let len: usize = bytes.len();
        ByteBuf { storage: bytes, len }
    }

    /// The bytes that hold data.
    pub fn into_vec(self) -> (r: Vec<u8>)
        requires
            self.len <= self.storage@.len(),
        ensures
            r@ == self.storage@.take(self.len as int),
    {
        let mut bytes = self.storage;
        bytes.truncate(self.len);
        bytes
    }
}

impl IoBuf for ByteBuf {
    open spec fn filled(&self) -> usize {
        self.len
    }

    fn buf_len(&self) -> (r: usize) {
        self.len
    }
}

impl IoBufMut for ByteBuf {
    open spec fn room(&self) -> usize {
        self.storage@.len() as usize
    }

    fn buf_capacity(&self) -> (r: usize) {
        self.storage.len()
    }

    open spec fn initialized(before: Self, len: usize, after: Self) -> bool {
        after.storage == before.storage && after.len == len
    }

    fn set_buf_init(&mut self, len: usize) {
        self.len = len;
    }
}

/// A vector is sent as far as it is long. To receive into its spare room, it is
/// made a `ByteBuf`.
impl IoBuf for Vec<u8> {
    open spec fn filled(&self) -> usize {
        self@.len() as usize
    }

    fn buf_len(&self) -> (r: usize) {
        self.len()
    }
}

/// An array is always full, however much of it was received.
impl<const N: usize> IoBuf for [u8; N] {
    open spec fn filled(&self) -> usize {
        N
    }

    fn buf_len(&self) -> (r: usize) {
        N
    }
}

impl<const N: usize> IoBufMut for [u8; N] {
    open spec fn room(&self) -> usize {
        N
    }

    fn buf_capacity(&self) -> (r: usize) {
        N
    }

    open spec fn initialized(before: Self, len: usize, after: Self) -> bool {
        after == before
    }

    fn set_buf_init(&mut self, len: usize) {
    }
}

/// All bytes of some segments, in order.
pub open spec fn flat(segments: Seq<Seq<u8>>) -> Seq<u8>
    decreases segments.len(),
{
    if segments.len() == 0 {
        Seq::empty()
    } else {
        flat(segments.drop_last()) + segments.last()
    }
}

/// The lengths of some segments.
pub open spec fn lengths_of(segments: Seq<Seq<u8>>) -> Seq<usize> {
    segments.map_values(|segment: Seq<u8>| segment.len() as usize)
}

/// A buffer in several segments, with bytes to be sent.
pub trait IoVectoredBuf: Sized {
    /// The bytes of each segment.
    spec fn segments(&self) -> Seq<Seq<u8>>;

    fn segment_count(&self) -> (r: usize)
        ensures
            r == self.segments().len(),
    ;

    fn segment_len(&self, index: usize) -> (r: usize)
        requires
            index < self.segments().len(),
        ensures
            r == self.segments()[index as int].len(),
    ;

    /// Append the bytes of a segment to `output`.
    fn append_segment(&self, index: usize, output: &mut Vec<u8>)
        requires
            index < self.segments().len(),
        ensures
            final(output)@ == old(output)@ + self.segments()[index as int],
    ;
}

/// A buffer in several segments that can be received into.
pub trait IoVectoredBufMut: IoVectoredBuf {
    /// Put `source[from..from + count]` at the front of a segment; the bytes
    /// behind them stay.
    fn fill_segment(&mut self, index: usize, source: &[u8], from: usize, count: usize)
        requires
            index < old(self).segments().len(),
            count <= old(self).segments()[index as int].len(),
            from + count <= source@.len(),
        ensures
            final(self).segments() == old(self).segments().update(
                index as int,
                source@.subrange(from as int, from + count) + old(
                    self,
                ).segments()[index as int].skip(count as int),
            ),
    ;
}

impl IoVectoredBuf for Vec<Vec<u8>> {
    open spec fn segments(&self) -> Seq<Seq<u8>> {
        self@.map_values(|segment: Vec<u8>| segment@)
    }

    fn segment_count(&self) -> (r: usize) {
        self.len()
    }

    fn segment_len(&self, index: usize) -> (r: usize) {
        self[index].len()
    }

    fn append_segment(&self, index: usize, output: &mut Vec<u8>) {
        let ghost before = output@;
        let segment: &Vec<u8> = &self[index];
        let mut i: usize = 0;
        while i < segment.len()
            invariant
                i <= segment@.len(),
                output@ == before + segment@.take(i as int),
            decreases segment@.len() - i,
        {
            output.push(segment[i]);
            i += 1;
            assert(output@ =~= before + segment@.take(i as int));
        }
        assert(segment@.take(i as int) =~= segment@);
    }
}

impl IoVectoredBufMut for Vec<Vec<u8>> {
    fn fill_segment(&mut self, index: usize, source: &[u8], from: usize, count: usize) {
        let ghost before = self.segments();
        let available: usize = source.len();
        let mut segment: Vec<u8> = Vec::new();
        core::mem::swap(&mut self[index], &mut segment);
        let ghost kept = segment@;
        let mut i: usize = 0;
        while i < count
            invariant
                i <= count <= kept.len(),
                available == source@.len(),
                from + count <= available,
                segment@.len() == kept.len(),
                forall|j: int|
                    0 <= j < kept.len() ==> #[trigger] segment@[j] == if j < i {
                        source@[from + j]
                    } else {
                        kept[j]
                    },
            decreases count - i,
        {
            segment.set(i, source[from + i]);
            i += 1;
        }
        assert(segment@ =~= source@.subrange(from as int, from + count) + kept.skip(count as int));
        self.set(index, segment);
        assert(self.segments() =~= before.update(index as int, segment@));
    }
}

/// The lengths of the segments of a buffer.
pub fn segment_lengths<B: IoVectoredBuf>(bufs: &B) -> (r: Vec<usize>)
    ensures
        r@ == lengths_of(bufs.segments()),
        forall|i: int|
            0 <= i < bufs.segments().len() ==> (#[trigger] bufs.segments()[i]).len() <= usize::MAX,
{
    let mut lengths: Vec<usize> = Vec::new();
    let count: usize = bufs.segment_count();
    let mut i: usize = 0;
    while i < count
        invariant
            i <= count == bufs.segments().len(),
            lengths@ == lengths_of(bufs.segments()).take(i as int),
            forall|j: int|
                0 <= j < i ==> (#[trigger] bufs.segments()[j]).len() <= usize::MAX,
        decreases count - i,
    {
        lengths.push(bufs.segment_len(i));
        i += 1;
        assert(lengths@ =~= lengths_of(bufs.segments()).take(i as int));
    }
    assert(lengths@ =~= lengths_of(bufs.segments()));
    lengths
}

/// Gather all bytes of a buffer into one allocation.
pub fn gather<B: IoVectoredBuf>(bufs: &B) -> (r: Vec<u8>)
    ensures
        r@ == flat(bufs.segments()),
{
    let mut staging: Vec<u8> = Vec::new();
    let count: usize = bufs.segment_count();
    let mut i: usize = 0;
    assert(bufs.segments().take(0) =~= Seq::<Seq<u8>>::empty());
    while i < count
        invariant
            i <= count == bufs.segments().len(),
            staging@ == flat(bufs.segments().take(i as int)),
        decreases count - i,
    {
        bufs.append_segment(i, &mut staging);
        assert(bufs.segments().take(i as int + 1).drop_last() =~= bufs.segments().take(i as int));
        i += 1;
    }
    assert(bufs.segments().take(i as int) =~= bufs.segments());
    staging
}

/// Where each segment fits a `usize`, the lengths of the segments add up to that
/// of all bytes.
pub proof fn lemma_flat_len(segments: Seq<Seq<u8>>)
    requires
        forall|i: int| 0 <= i < segments.len() ==> (#[trigger] segments[i]).len() <= usize::MAX,
    ensures
        flat(segments).len() == total_len(lengths_of(segments)),
    decreases segments.len(),
{
    if segments.len() > 0 {
        lemma_flat_len(segments.drop_last());
        assert(lengths_of(segments).drop_last() =~= lengths_of(segments.drop_last()));
    }
}

/// `after` is `before` with its first bytes, taken over all segments, replaced by
/// the first `count` of `staging`, as far as there is room.
pub open spec fn scattered(
    before: Seq<Seq<u8>>,
    staging: Seq<u8>,
    count: int,
    after: Seq<Seq<u8>>,
) -> bool {
    let moved = if count <= flat(before).len() {
        count
    } else {
        flat(before).len() as int
    };
    &&& after.len() == before.len()
    &&& forall|i: int| 0 <= i < before.len() ==> (#[trigger] after[i]).len() == before[i].len()
    &&& flat(after) == staging.take(moved) + flat(before).skip(moved)
}

/// Spread the first `count` bytes of `staging` over the segments of a buffer, in
/// order. Segments that are full up are passed over; bytes that were not reached
/// stay.
pub fn scatter<B: IoVectoredBufMut>(bufs: &mut B, staging: &[u8], count: usize)
    requires
        count <= staging@.len(),
    ensures
        scattered(old(bufs).segments(), staging@, count as int, final(bufs).segments()),
{
    let ghost before = bufs.segments();
    let segments: usize = bufs.segment_count();
    let mut offset: usize = 0;
    let mut remaining: usize = count;
    let mut i: usize = 0;
    assert(before.take(0) =~= Seq::<Seq<u8>>::empty());
    assert(flat(before.take(0)) =~= staging@.take(0) + flat(before.take(0)).skip(0));
    while i < segments
        invariant
            i <= segments == before.len(),
            bufs.segments().len() == before.len(),
            count <= staging@.len(),
            offset + remaining == count,
            offset <= flat(before.take(i as int)).len(),
            remaining > 0 ==> offset == flat(before.take(i as int)).len(),
            forall|j: int|
                0 <= j < before.len() ==> (#[trigger] bufs.segments()[j]).len() == before[j].len(),
            forall|j: int| i <= j < before.len() ==> bufs.segments()[j] == before[j],
            flat(bufs.segments().take(i as int)) == staging@.take(offset as int) + flat(
                before.take(i as int),
            ).skip(offset as int),
        decreases segments - i,
    {
        let len: usize = bufs.segment_len(i);
        let chunk: usize = if remaining <= len {
            remaining
        } else {
            len
        };
        let ghost halfway = bufs.segments();
        if chunk > 0 {
            bufs.fill_segment(i, staging, offset, chunk);
        }
        proof {
            let after = bufs.segments();
            let at = i as int;
            assert(before.take(at + 1).drop_last() =~= before.take(at));
            assert(after.take(at + 1).drop_last() =~= halfway.take(at));
            let front = flat(before.take(at));
            assert(flat(before.take(at + 1)) == front + before[at]);
            if chunk == 0 {
                assert(after[at] == before[at]);
            }
            assert(after[at] =~= staging@.subrange(offset as int, offset + chunk) + before[at].skip(
                chunk as int,
            ));
            assert(staging@.take(offset as int) + front.skip(offset as int) + after[at]
                =~= staging@.take(offset + chunk) + (front + before[at]).skip(offset + chunk));
        }
        offset += chunk;
        remaining -= chunk;
        i += 1;
    }
    assert(before.take(i as int) =~= before);
    assert(bufs.segments().take(i as int) =~= bufs.segments());
}

/// A byte buffer offers all of its storage as room, says how much of it holds
/// data, and gives exactly those bytes back.
pub proof fn byte_buffers_give_back_what_was_received(
    before: ByteBuf,
    after: ByteBuf,
    received: usize,
    room: usize,
    filled: usize,
    bytes: Vec<u8>,
)
    requires
        before.storage@.len() <= usize::MAX,
        received <= before.storage@.len(),
        call_ensures(<ByteBuf as IoBufMut>::buf_capacity, (&before,), room),
        exists|buf: &mut ByteBuf|
            *buf == before && *final(buf) == after && #[trigger] call_ensures(
                <ByteBuf as IoBufMut>::set_buf_init,
                (buf, received),
                (),
            ),
        call_ensures(<ByteBuf as IoBuf>::buf_len, (&after,), filled),
        call_ensures(ByteBuf::into_vec, (after,), bytes),
    ensures
        room == before.storage@.len() && before.room() == room,
        filled == received && after.filled() == received,
        ByteBuf::initialized(before, received, after),
        after.storage@ == before.storage@,
        bytes@.len() == received,
        forall|i: int| 0 <= i < received ==> #[trigger] bytes@[i] == before.storage@[i],
{
}

/// A receive into a byte buffer keeps its storage and counts what came.
pub proof fn receiving_counts_what_came(before: ByteBuf, len: usize, after: ByteBuf)
    requires
        ByteBuf::initialized(before, len, after),
    ensures
        after.len == len,
        after.storage@ == before.storage@,
        after.room() == before.room(),
        after.storage@.len() <= usize::MAX ==> after.room() == after.storage@.len(),
{
}

/// A new byte buffer has the room that was asked for, or holds the bytes that it
/// was made of.
pub proof fn byte_buffers_start_empty_or_full(
    capacity: usize,
    empty: ByteBuf,
    bytes: Vec<u8>,
    full: ByteBuf,
    len: usize,
    back: Vec<u8>,
)
    requires
        call_ensures(ByteBuf::with_capacity, (capacity,), empty),
        call_ensures(ByteBuf::from_vec, (bytes,), full),
        call_ensures(<Vec<u8> as IoBuf>::buf_len, (&bytes,), len),
        call_ensures(ByteBuf::into_vec, (full,), back),
    ensures
        empty.storage@.len() == capacity && empty.len == 0,
        back@ == bytes@,
        len == bytes.filled(),
        bytes@.len() <= usize::MAX ==> len == bytes@.len(),
{
    assert(full.storage@.take(full.len as int) =~= bytes@);
}

/// Arrays are sent and received whole, and change in nothing but their bytes.
pub proof fn arrays_are_always_full<const N: usize>(
    before: [u8; N],
    after: [u8; N],
    received: usize,
    len: usize,
    room: usize,
)
    requires
        call_ensures(<[u8; N] as IoBuf>::buf_len, (&before,), len),
        call_ensures(<[u8; N] as IoBufMut>::buf_capacity, (&before,), room),
        exists|buf: &mut [u8; N]|
            *buf == before && *final(buf) == after && #[trigger] call_ensures(
                <[u8; N] as IoBufMut>::set_buf_init,
                (buf, received),
                (),
            ),
    ensures
        len == N && room == N,
        before.filled() == N && before.room() == N,
        after == before,
{
}

/// The segments of a vector of vectors are its members.
pub proof fn segments_are_the_members(
    bufs: Vec<Vec<u8>>,
    index: usize,
    count: usize,
    len: usize,
    before: Vec<u8>,
    after: Vec<u8>,
)
    requires
        index < bufs@.len(),
        call_ensures(<Vec<Vec<u8>> as IoVectoredBuf>::segment_count, (&bufs,), count),
        call_ensures(<Vec<Vec<u8>> as IoVectoredBuf>::segment_len, (&bufs, index), len),
        exists|output: &mut Vec<u8>|
            *output == before && *final(output) == after && #[trigger] call_ensures(
                <Vec<Vec<u8>> as IoVectoredBuf>::append_segment,
                (&bufs, index, output),
                (),
            ),
    ensures
        count == bufs@.len() && bufs.segments().len() == bufs@.len(),
        len == bufs@[index as int]@.len(),
        bufs.segments()[index as int] == bufs@[index as int]@,
        after@ == before@ + bufs@[index as int]@,
{
}

/// All bytes of some segments are those of the first followed by those of the
/// rest, wherever the segments are split.
pub proof fn bytes_of_segments_join(a: Seq<Seq<u8>>, b: Seq<Seq<u8>>, one: Seq<u8>)
    ensures
        flat(Seq::<Seq<u8>>::empty()).len() == 0,
        flat(seq![one]) == one,
        flat(a + b) == flat(a) + flat(b),
    decreases b.len(),
{
    assert(seq![one].drop_last() =~= Seq::<Seq<u8>>::empty());
    assert(flat(Seq::<Seq<u8>>::empty()) =~= Seq::<u8>::empty());
    assert(flat(seq![one]) == flat(seq![one].drop_last()) + one);
    assert(flat(seq![one]) =~= one);
    if b.len() > 0 {
        bytes_of_segments_join(a, b.drop_last(), one);
        assert((a + b).drop_last() =~= a + b.drop_last());
        assert((flat(a) + flat(b.drop_last())) + b.last() =~= flat(a) + (flat(b.drop_last())
            + b.last()));
    } else {
        assert(a + b =~= a);
        assert(flat(a) + flat(b) =~= flat(a));
    }
}

/// Gathering copies every byte of every segment, in order: two segments that
/// follow each other stand behind each other, after all that come before.
pub proof fn gathering_keeps_every_byte<B: IoVectoredBuf>(
    bufs: B,
    lengths: Vec<usize>,
    staging: Vec<u8>,
    index: int,
)
    requires
        call_ensures(segment_lengths::<B>, (&bufs,), lengths),
        call_ensures(gather::<B>, (&bufs,), staging),
        0 <= index < bufs.segments().len(),
    ensures
        lengths@.len() == bufs.segments().len(),
        lengths@[index] == bufs.segments()[index].len(),
        ({
            let front = flat(bufs.segments().take(index));
            let segment = bufs.segments()[index];
            &&& front.len() + segment.len() <= staging@.len()
            &&& staging@.subrange(front.len() as int, (front.len() + segment.len()) as int)
                == segment
            &&& staging@.skip((front.len() + segment.len()) as int) == flat(
                bufs.segments().skip(index + 1),
            )
        }),
{
    let segments = bufs.segments();
    let front = segments.take(index);
    let rest = segments.skip(index + 1);
    bytes_of_segments_join(front, seq![segments[index]] + rest, segments[index]);
    bytes_of_segments_join(seq![segments[index]], rest, segments[index]);
    assert(front + (seq![segments[index]] + rest) =~= segments);
    assert(staging@ == flat(front) + (segments[index] + flat(rest)));
    assert(staging@.subrange(
        flat(front).len() as int,
        (flat(front).len() + segments[index].len()) as int,
    ) =~= segments[index]);
    assert(staging@.skip((flat(front).len() + segments[index].len()) as int) =~= flat(rest));
    lemma_flat_len(segments);
}

/// Scattering puts the bytes that came to the front, byte for byte, as far as
/// there is room, and leaves every byte behind them and every length alone.
pub proof fn scattering_moves_exactly_the_bytes_that_came<B: IoVectoredBufMut>(
    before: B,
    after: B,
    staging: &[u8],
    count: usize,
    at: int,
)
    requires
        count <= staging@.len(),
        exists|bufs: &mut B|
            *bufs == before && *final(bufs) == after && #[trigger] call_ensures(
                scatter::<B>,
                (bufs, staging, count),
                (),
            ),
    ensures
        after.segments().len() == before.segments().len(),
        forall|i: int|
            0 <= i < before.segments().len() ==> (#[trigger] after.segments()[i]).len()
                == before.segments()[i].len(),
        flat(after.segments()).len() == flat(before.segments()).len(),
        0 <= at < flat(before.segments()).len() ==> flat(after.segments())[at] == if at < count {
            staging@[at]
        } else {
            flat(before.segments())[at]
        },
{
}

/// Filling a segment replaces as many bytes at its front, and no others.
pub proof fn filling_replaces_the_front(
    before: Vec<Vec<u8>>,
    after: Vec<Vec<u8>>,
    index: usize,
    source: &[u8],
    from: usize,
    count: usize,
    other: int,
    at: int,
)
    requires
        index < before@.len(),
        count <= before@[index as int]@.len(),
        from + count <= source@.len(),
        exists|bufs: &mut Vec<Vec<u8>>|
            *bufs == before && *final(bufs) == after && #[trigger] call_ensures(
                <Vec<Vec<u8>> as IoVectoredBufMut>::fill_segment,
                (bufs, index, source, from, count),
                (),
            ),
        0 <= other < before@.len(),
        0 <= at < before@[other]@.len(),
    ensures
        after@.len() == before@.len(),
        after@[other]@.len() == before@[other]@.len(),
        after@[other]@[at] == if other == index && at < count {
            source@[from + at]
        } else {
            before@[other]@[at]
        },
{
    assert(after.segments().len() == before.segments().len());
    assert(after.segments()[other] == after@[other]@);
    assert(before.segments()[other] == before@[other]@);
    assert(before.segments()[index as int] == before@[index as int]@);
}

/// The lengths of some segments are their lengths, one for each.
pub proof fn lengths_are_those_of_the_segments(segments: Seq<Seq<u8>>, index: int)
    ensures
        lengths_of(segments).len() == segments.len(),
        0 <= index < segments.len() && segments[index].len() <= usize::MAX ==> lengths_of(
            segments,
        )[index] == segments[index].len(),
{
}

} // verus!
