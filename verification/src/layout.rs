//! Word arithmetic and the layout rule that decides which value types a cell
//! of a given capacity may hold.

use vstd::prelude::*;
use vstd::layout::size_of;

verus! {

/// Number of bytes in one word, the unit in which a cell's capacity is counted.
pub const WORD_BYTES: usize = 8;

/// The number of whole words that `bytes` bytes occupy: `bytes / WORD_BYTES`,
/// rounded up.
pub open spec fn words_for(bytes: nat) -> nat {
    ((bytes + WORD_BYTES - 1) / (WORD_BYTES as int)) as nat
}

/// A word has the size of a `u64`.
pub proof fn lemma_word_is_u64()
    ensures
        size_of::<u64>() == WORD_BYTES,
{
    broadcast use vstd::layout::layout_of_primitives;
}

/// `words_for(bytes)` words are enough for `bytes` bytes, and they leave less
/// than one word unused.
pub proof fn lemma_words_cover(bytes: nat)
    ensures
        bytes <= words_for(bytes) * WORD_BYTES < bytes + WORD_BYTES,
{
}

/// No smaller number of words is enough for `bytes` bytes.
pub proof fn lemma_words_least(bytes: nat, words: nat)
    requires
        bytes <= words * WORD_BYTES,
    ensures
        words_for(bytes) <= words,
{
}

/// A whole number of words is counted exactly, anything else is rounded up to
/// the next word, and only an empty value needs no word at all.
pub proof fn lemma_words_round_up(bytes: nat)
    ensures
        bytes % (WORD_BYTES as nat) == 0 ==> words_for(bytes) * WORD_BYTES == bytes,
        bytes % (WORD_BYTES as nat) != 0 ==> words_for(bytes) == bytes / (WORD_BYTES as nat) + 1,
        words_for(bytes) == 0 <==> bytes == 0,
{
}

/// Computes the number of words that `bytes` bytes occupy.
pub fn words_for_bytes(bytes: usize) -> (words: usize)
    ensures
        words == words_for(bytes as nat),
        bytes <= words * WORD_BYTES < bytes + WORD_BYTES,
{
    if bytes % WORD_BYTES == 0 {
        bytes / WORD_BYTES
    } else {
        bytes / WORD_BYTES + 1
    }
}

/// Computes the capacity, in words, that a cell must declare to hold a value
/// of type `T`.
pub fn capacity_for<T>() -> (words: usize)
    ensures
        words == words_for(size_of::<T>()),
        size_of::<T>() <= words * WORD_BYTES < size_of::<T>() + WORD_BYTES,
{
    words_for_bytes(core::mem::size_of::<T>())
}

/// Why a value type cannot be held in a cell of a given capacity.
#[derive(Clone, Copy, Debug, PartialEq, Eq)]
pub enum LayoutError {
    /// The value type requires a stricter alignment than the cell provides.
    AlignmentViolation,
    /// The declared capacity is not the number of words the value occupies.
    CapacityMismatch,
}

/// The layout rule. A value type with alignment `value_align` and size
/// `value_bytes` may be held in a cell with alignment `cell_align` and a
/// capacity of `capacity` words exactly when the cell is aligned at least as
/// strictly as the value and the capacity is `words_for(value_bytes)`. The
/// alignment is judged first.
pub open spec fn layout_verdict(
    value_align: nat,
    cell_align: nat,
    value_bytes: nat,
    capacity: nat,
) -> Result<(), LayoutError> {
    if value_align > cell_align {
        Err(LayoutError::AlignmentViolation)
    } else if capacity != words_for(value_bytes) {
        Err(LayoutError::CapacityMismatch)
    } else {
        Ok(())
    }
}

/// Applies the layout rule to measured alignments, size and capacity.
pub fn check_layout(
    value_align: usize,
    cell_align: usize,
    value_bytes: usize,
    capacity: usize,
) -> (verdict: Result<(), LayoutError>)
    ensures
        verdict == layout_verdict(
            value_align as nat,
            cell_align as nat,
            value_bytes as nat,
            capacity as nat,
        ),
        verdict is Ok <==> (value_align <= cell_align && capacity == words_for(
            value_bytes as nat,
        )),
        verdict == Err::<(), LayoutError>(LayoutError::AlignmentViolation) <==> (value_align
            > cell_align),
        verdict == Err::<(), LayoutError>(LayoutError::CapacityMismatch) <==> (value_align
            <= cell_align && capacity != words_for(value_bytes as nat)),
{
    if value_align > cell_align {
        Err(LayoutError::AlignmentViolation)
    } else if capacity != words_for_bytes(value_bytes) {
        Err(LayoutError::CapacityMismatch)
    } else {
        Ok(())
    }
}

} // verus!
