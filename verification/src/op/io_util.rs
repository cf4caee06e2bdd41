//! What the operations share: lengths, offsets, buffer storage.

use vstd::prelude::*;

use crate::error::{ErrorKind, IoError};
use crate::system::System;

verus! {

/// Windows: the end of a file was reached.
pub const ERROR_HANDLE_EOF: i32 = 38;

/// An error of the given text, blamed on the arguments.
pub open spec fn invalid_input(text: &'static str) -> IoError {
    IoError::Message(ErrorKind::InvalidInput, text)
}

/// What a failed read reports: on Windows the end of a file is a read of nothing.
pub open spec fn read_error_spec(system: System, error: IoError) -> Result<i32, IoError> {
    if system == System::Windows && error.code() == Some(ERROR_HANDLE_EOF) {
        Ok(0)
    } else {
        Err(error)
    }
}

/// Normalize an end of file reported either during submission or by a completed
/// read.
pub fn read_error_result(system: System, error: IoError) -> (r: Result<i32, IoError>)
    ensures
        r == read_error_spec(system, error),
{
    if let System::Windows = system {
        if let Some(code) = error.raw_os_error() {
            if code == ERROR_HANDLE_EOF {
                return Ok(0);
            }
        }
    }
    Err(error)
}

pub open spec fn positional_offset_spec(offset: u64) -> Result<u64, IoError> {
    if offset <= i64::MAX {
        Ok(offset)
    } else {
        Err(invalid_input("file offset exceeds signed 64-bit range"))
    }
}

/// Linux file offsets are signed. In particular, a ring treats all-one bits as
/// a request to use and advance the shared cursor, not a position.
pub fn positional_offset(offset: u64) -> (r: Result<u64, IoError>)
    ensures
        r == positional_offset_spec(offset),
{
    if offset <= i64::MAX as u64 {
        Ok(offset)
    } else {
        Err(IoError::Message(ErrorKind::InvalidInput, "file offset exceeds signed 64-bit range"))
    }
}

/// An integer type of a native count field.
pub trait NativeCount: Sized {
    /// The number that the value stands for.
    spec fn number(self) -> int;

    /// Whether the type holds `count`.
    spec fn holds(count: usize) -> bool;

    fn from_count(count: usize) -> (r: Option<Self>)
        ensures
            r is Some <==> Self::holds(count),
            r matches Some(value) ==> value.number() == count,
    ;
}

impl NativeCount for i32 {
    open spec fn number(self) -> int {
        self as int
    }

    open spec fn holds(count: usize) -> bool {
        count <= i32::MAX
    }

    fn from_count(count: usize) -> (r: Option<i32>) {
        if count <= i32::MAX as usize {
            Some(count as i32)
        } else {
            None
        }
    }
}

impl NativeCount for u32 {
    open spec fn number(self) -> int {
        self as int
    }

    open spec fn holds(count: usize) -> bool {
        count <= u32::MAX
    }

    fn from_count(count: usize) -> (r: Option<u32>) {
        if count <= u32::MAX as usize {
            Some(count as u32)
        } else {
            None
        }
    }
}

/// The number of I/O vectors in the type of the native count field.
pub fn iovec_count<T: NativeCount>(count: usize) -> (r: Result<T, IoError>)
    ensures
        r is Ok <==> T::holds(count),
        r matches Ok(value) ==> value.number() == count,
        r matches Err(error) ==> error == invalid_input(
            "too many I/O vectors for native count field",
        ),
{
    match T::from_count(count) {
        Some(value) => Ok(value),
        None => Err(
            IoError::Message(
                ErrorKind::InvalidInput,
                "too many I/O vectors for native count field",
            ),
        ),
    }
}

pub open spec fn completion_len_spec(capacity: usize) -> Result<u32, IoError> {
    if capacity <= i32::MAX {
        Ok(capacity as u32)
    } else {
        Err(invalid_input("buffer exceeds completion length limit"))
    }
}

/// A completion reports its count in a signed `i32`, with negative values
/// reserved for errors. Longer buffers are rejected before any I/O is submitted.
pub fn completion_len(capacity: usize) -> (r: Result<u32, IoError>)
    ensures
        r == completion_len_spec(capacity),
{
    if capacity <= i32::MAX as usize {
        Ok(capacity as u32)
    } else {
        Err(IoError::Message(ErrorKind::InvalidInput, "buffer exceeds completion length limit"))
    }
}

/// The length of a single transfer, with `text` for one that is too long.
pub open spec fn transfer_len_spec(capacity: usize, text: &'static str) -> Result<u32, IoError> {
    if capacity <= i32::MAX {
        Ok(capacity as u32)
    } else {
        Err(invalid_input(text))
    }
}

/// `completion_len` with an error text of the caller's.
pub fn transfer_len(capacity: usize, text: &'static str) -> (r: Result<u32, IoError>)
    ensures
        r == transfer_len_spec(capacity, text),
{
    match completion_len(capacity) {
        Ok(len) => Ok(len),
        Err(_) => Err(IoError::Message(ErrorKind::InvalidInput, text)),
    }
}

/// The sum of some lengths.
pub open spec fn total_len(lengths: Seq<usize>) -> int
    decreases lengths.len(),
{
    if lengths.len() == 0 {
        0
    } else {
        total_len(lengths.drop_last()) + lengths.last()
    }
}

pub proof fn lemma_prefix_is_no_longer(lengths: Seq<usize>, count: int)
    requires
        0 <= count <= lengths.len(),
    ensures
        0 <= total_len(lengths.take(count)) <= total_len(lengths),
    decreases lengths.len() - count, count,
{
    if count < lengths.len() {
        lemma_prefix_is_no_longer(lengths, count + 1);
        assert(lengths.take(count + 1).drop_last() =~= lengths.take(count));
        lemma_total_is_not_negative(lengths.take(count));
    } else {
        assert(lengths.take(count) =~= lengths);
        lemma_total_is_not_negative(lengths);
    }
}

proof fn lemma_total_is_not_negative(lengths: Seq<usize>)
    ensures
        0 <= total_len(lengths),
    decreases lengths.len(),
{
    if lengths.len() > 0 {
        lemma_total_is_not_negative(lengths.drop_last());
    }
}

pub proof fn lemma_part_is_no_longer(lengths: Seq<usize>, index: int)
    requires
        0 <= index < lengths.len(),
    ensures
        lengths[index] <= total_len(lengths),
{
    lemma_prefix_is_no_longer(lengths, index + 1);
    lemma_total_is_not_negative(lengths.take(index));
    assert(lengths.take(index + 1).drop_last() =~= lengths.take(index));
}

/// The sum of the lengths, where it fits a `usize`.
pub fn checked_total(lengths: &[usize]) -> (r: Option<usize>)
    ensures
        r is Some <==> total_len(lengths@) <= usize::MAX,
        r matches Some(total) ==> total == total_len(lengths@),
{
    let mut total: usize = 0;
    let mut i: usize = 0;
    assert(lengths@.take(0) =~= Seq::<usize>::empty());
    while i < lengths.len()
        invariant
            i <= lengths@.len(),
            total == total_len(lengths@.take(i as int)),
        decreases lengths@.len() - i,
    {
        proof {
            lemma_prefix_is_no_longer(lengths@, i as int + 1);
            assert(lengths@.take(i as int + 1).drop_last() =~= lengths@.take(i as int));
        }
        match total.checked_add(lengths[i]) {
            Some(sum) => {
                total = sum;
            },
            None => {
                return None;
            },
        }
        i += 1;
    }
    assert(lengths@.take(i as int) =~= lengths@);
    Some(total)
}

pub open spec fn completion_vectored_len_spec(lengths: Seq<usize>) -> Result<u32, IoError> {
    if total_len(lengths) > usize::MAX {
        Err(invalid_input("vectored length overflow"))
    } else {
        completion_len_spec(total_len(lengths) as usize)
    }
}

/// The length of a vectored transfer, which must fit a signed completion too.
pub fn completion_vectored_len(lengths: &[usize]) -> (r: Result<u32, IoError>)
    ensures
        r == completion_vectored_len_spec(lengths@),
{
    match checked_total(lengths) {
        Some(total) => completion_len(total),
        None => Err(IoError::Message(ErrorKind::InvalidInput, "vectored length overflow")),
    }
}

/// Every length is one that a socket call takes.
pub open spec fn socket_vectors_fit(lengths: Seq<usize>) -> bool {
    forall|i: int| 0 <= i < lengths.len() ==> #[trigger] lengths[i] <= i32::MAX
}

/// The number of vectors of a socket call, with `text` for a vector that is too
/// long.
pub fn check_socket_vectors(lengths: &[usize], text: &'static str) -> (r: Result<u32, IoError>)
    ensures
        r is Ok <==> socket_vectors_fit(lengths@) && lengths@.len() <= u32::MAX,
        r matches Ok(count) ==> count == lengths@.len(),
        r matches Err(error) ==> error == if !socket_vectors_fit(lengths@) {
            invalid_input(text)
        } else {
            invalid_input("too many I/O vectors for native count field")
        },
{
    let mut i: usize = 0;
    while i < lengths.len()
        invariant
            i <= lengths@.len(),
            forall|j: int| 0 <= j < i ==> #[trigger] lengths@[j] <= i32::MAX,
        decreases lengths@.len() - i,
    {
        match transfer_len(lengths[i], text) {
            Ok(_) => {},
            Err(error) => {
                return Err(error);
            },
        }
        i += 1;
    }
    iovec_count::<u32>(lengths.len())
}

/// A call that a signal cut short is made again; every other result stands.
pub fn retry_interrupted<T>(result: Result<T, IoError>) -> (r: Option<Result<T, IoError>>)
    ensures
        r == match result {
            Err(error) => if error.interrupted() {
                None
            } else {
                Some(result)
            },
            Ok(_) => Some(result),
        },
{
    match result {
        Ok(value) => Some(Ok(value)),
        Err(error) => {
            if error.is_interrupted() {
                None
            } else {
                Some(Err(error))
            }
        },
    }
}

/// Close the descriptor when another program is run.
pub const FD_CLOEXEC: i32 = 1;

/// What marking a descriptor to be closed on exec leads to.
#[derive(Debug, Clone, Copy, PartialEq, Eq)]
pub enum CloexecStep {
    /// Set the flags of the descriptor to these.
    SetFlags(i32),
    Done(Result<(), IoError>),
}

/// Mark a descriptor to be closed on exec, by the flags that it has now. The
/// other flags are preserved, and flags that hold the mark are left alone.
pub fn set_cloexec(flags: Result<i32, IoError>) -> (r: CloexecStep)
    ensures
        r == match flags {
            Ok(current) => if current & FD_CLOEXEC == 0 {
                CloexecStep::SetFlags(current | FD_CLOEXEC)
            } else {
                CloexecStep::Done(Ok(()))
            },
            Err(error) => CloexecStep::Done(Err(error)),
        },
{
    match flags {
        Ok(current) => {
            if current & FD_CLOEXEC == 0 {
                CloexecStep::SetFlags(current | FD_CLOEXEC)
            } else {
                CloexecStep::Done(Ok(()))
            }
        },
        Err(error) => CloexecStep::Done(Err(error)),
    }
}

/// Storage of a buffer: in place, or boxed so that it can change hands while the
/// kernel holds its address.
pub enum CompletionBuffer<B> {
    Inline(B),
    Boxed(Box<B>),
}

impl<B> CompletionBuffer<B> {
    /// The buffer that is stored.
    pub open spec fn value(self) -> B {
        match self {
            CompletionBuffer::Inline(buf) => buf,
            CompletionBuffer::Boxed(buf) => *buf,
        }
    }

    /// A buffer that must be stable is boxed.
    pub fn new(buf: B, stable: bool) -> (r: Self)
        ensures
            r.value() == buf,
            r is Boxed <==> stable,
    {
        if stable {
            CompletionBuffer::Boxed(Box::new(buf))
        } else {
            CompletionBuffer::Inline(buf)
        }
    }

    pub fn as_ref(&self) -> (r: &B)
        ensures
            *r == self.value(),
    {
        match self {
            CompletionBuffer::Inline(buf) => buf,
            CompletionBuffer::Boxed(buf) => buf,
        }
    }

    pub fn as_mut(&mut self) -> (r: &mut B)
        ensures
            *r == old(self).value(),
            final(self).value() == *final(r),
            *final(self) is Boxed <==> *old(self) is Boxed,
    {
        match self {
            CompletionBuffer::Inline(buf) => buf,
            CompletionBuffer::Boxed(buf) => &mut **buf,
        }
    }

    pub fn into_inner(self) -> (r: B)
        ensures
            r == self.value(),
    {
        match self {
            CompletionBuffer::Inline(buf) => buf,
            CompletionBuffer::Boxed(buf) => *buf,
        }
    }

    pub fn into_stable_box(self) -> (r: Box<B>)
        ensures
            *r == self.value(),
    {
        match self {
            CompletionBuffer::Inline(buf) => Box::new(buf),
            CompletionBuffer::Boxed(buf) => buf,
        }
    }
}

/// An offset is used as it is, wherever a signed offset can hold it; no other is
/// ever put in its place.
pub proof fn offsets_are_used_as_they_are(offset: u64, r: Result<u64, IoError>)
    requires
        call_ensures(positional_offset, (offset,), r),
    ensures
        r is Ok <==> offset < 0x8000_0000_0000_0000,
        r matches Ok(used) ==> used == offset,
        r matches Err(error) ==> (error matches IoError::Message(kind, _) && kind
            is InvalidInput),
{
}

/// A length is used as it is, wherever a signed completion can report it.
pub proof fn lengths_are_used_as_they_are(
    capacity: usize,
    text: &'static str,
    r: Result<u32, IoError>,
    worded: Result<u32, IoError>,
)
    requires
        call_ensures(completion_len, (capacity,), r),
        call_ensures(transfer_len, (capacity, text), worded),
    ensures
        r is Ok <==> capacity < 0x8000_0000,
        worded is Ok <==> capacity < 0x8000_0000,
        r matches Ok(len) ==> len == capacity,
        worded matches Ok(len) ==> len == capacity,
        r matches Err(error) ==> (error matches IoError::Message(kind, _) && kind
            is InvalidInput),
        worded matches Err(error) ==> error == IoError::Message(ErrorKind::InvalidInput, text),
{
}

/// A sum of lengths is that of its parts, wherever they are split.
pub proof fn lengths_add_up(a: Seq<usize>, b: Seq<usize>, one: usize)
    ensures
        total_len(Seq::<usize>::empty()) == 0,
        total_len(seq![one]) == one,
        total_len(a + b) == total_len(a) + total_len(b),
    decreases b.len(),
{
    assert(seq![one].drop_last() =~= Seq::<usize>::empty());
    if b.len() > 0 {
        lengths_add_up(a, b.drop_last(), one);
        assert((a + b).drop_last() =~= a + b.drop_last());
    } else {
        assert(a + b =~= a);
    }
}

/// A vectored transfer is as long as its parts together, and is refused exactly
/// where a signed completion could not report that.
pub proof fn vectored_lengths_are_sums(
    lengths: &[usize],
    total: Option<usize>,
    r: Result<u32, IoError>,
)
    requires
        call_ensures(checked_total, (lengths,), total),
        call_ensures(completion_vectored_len, (lengths,), r),
    ensures
        total is Some <==> total_len(lengths@) <= usize::MAX,
        total matches Some(sum) ==> sum == total_len(lengths@),
        r is Ok <==> total_len(lengths@) < 0x8000_0000,
        r matches Ok(len) ==> len == total_len(lengths@),
        r matches Err(error) ==> (error matches IoError::Message(kind, _) && kind
            is InvalidInput),
{
}

/// A socket call takes as many vectors as there are, none of which is too long.
pub proof fn socket_vectors_are_all_counted(
    lengths: &[usize],
    text: &'static str,
    r: Result<u32, IoError>,
    signed: Result<i32, IoError>,
    unsigned: Result<u32, IoError>,
    count: usize,
)
    requires
        call_ensures(check_socket_vectors, (lengths, text), r),
        call_ensures(iovec_count::<i32>, (count,), signed),
        call_ensures(iovec_count::<u32>, (count,), unsigned),
    ensures
        r is Ok <==> lengths@.len() < 0x1_0000_0000 && (forall|i: int|
            0 <= i < lengths@.len() ==> #[trigger] lengths@[i] < 0x8000_0000),
        r matches Ok(number) ==> number == lengths@.len(),
        signed is Ok <==> count < 0x8000_0000,
        signed matches Ok(number) ==> number == count,
        unsigned is Ok <==> count < 0x1_0000_0000,
        unsigned matches Ok(number) ==> number == count,
{
}

/// Only a call that a signal cut short is made again; any other result comes out
/// as it is.
pub proof fn only_interrupted_calls_are_repeated<T>(
    result: Result<T, IoError>,
    r: Option<Result<T, IoError>>,
)
    requires
        call_ensures(retry_interrupted::<T>, (result,), r),
    ensures
        r matches Some(own) ==> own == result,
        r is None <==> (result matches Err(error) && match error {
            IoError::Os(System::Windows, _) => false,
            IoError::Os(_, code) => code == 4,
            IoError::Simple(kind) => kind is Interrupted,
            IoError::Message(kind, _) => kind is Interrupted,
        }),
{
}

/// A descriptor ends up marked to be closed on exec, with its other flags as they
/// were.
pub proof fn close_on_exec_keeps_the_other_flags(
    flags: Result<i32, IoError>,
    r: CloexecStep,
    current: i32,
    error: IoError,
)
    requires
        call_ensures(set_cloexec, (flags,), r),
    ensures
        r matches CloexecStep::SetFlags(set) ==> (flags matches Ok(had) && had & 1 == 0 && set
            == had | 1),
        flags == Ok::<i32, IoError>(current) && current & 1 != 0 ==> r == CloexecStep::Done(
            Ok::<(), IoError>(()),
        ),
        flags == Ok::<i32, IoError>(current) && current & 1 == 0 ==> r is SetFlags,
        flags == Err::<i32, IoError>(error) ==> r == CloexecStep::Done(Err::<(), IoError>(error)),
{
}

/// A failed read is a failed read, but for the end of a file on Windows.
pub proof fn only_the_end_of_a_file_is_a_read_of_nothing(
    system: System,
    error: IoError,
    r: Result<i32, IoError>,
)
    requires
        call_ensures(read_error_result, (system, error), r),
    ensures
        r is Ok <==> system is Windows && (error matches IoError::Os(_, code) && code == 38),
        r matches Ok(count) ==> count == 0,
        r matches Err(own) ==> own == error,
{
}

/// A buffer goes into its storage and comes out of it unchanged, boxed or not; it
/// is boxed exactly where its address must be stable.
pub proof fn stored_buffers_come_back<B>(
    buf: B,
    stable: bool,
    stored: CompletionBuffer<B>,
    seen: &B,
    out: B,
    boxed: Box<B>,
)
    requires
        call_ensures(CompletionBuffer::<B>::new, (buf, stable), stored),
        call_ensures(CompletionBuffer::<B>::as_ref, (&stored,), seen),
        call_ensures(CompletionBuffer::<B>::into_inner, (stored,), out),
        call_ensures(CompletionBuffer::<B>::into_stable_box, (stored,), boxed),
    ensures
        match stored {
            CompletionBuffer::Inline(own) => own == buf && !stable,
            CompletionBuffer::Boxed(own) => *own == buf && stable,
        },
        stored.value() == buf,
        *seen == buf && out == buf && *boxed == buf,
{
}

/// A buffer that is changed in its storage stays there, boxed or not.
pub proof fn stored_buffers_change_in_place<B>(
    before: CompletionBuffer<B>,
    after: CompletionBuffer<B>,
    seen: B,
    left: B,
)
    requires
        exists|it: &mut CompletionBuffer<B>, own: &mut B|
            *it == before && *final(it) == after && *own == seen && *final(own) == left
                && #[trigger] call_ensures(CompletionBuffer::<B>::as_mut, (it,), own),
    ensures
        match before {
            CompletionBuffer::Inline(buf) => seen == buf,
            CompletionBuffer::Boxed(buf) => seen == *buf,
        },
        match after {
            CompletionBuffer::Inline(buf) => buf == left && before is Inline,
            CompletionBuffer::Boxed(buf) => *buf == left && before is Boxed,
        },
{
}

} // verus!
