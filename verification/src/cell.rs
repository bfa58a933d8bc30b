//! The cell: a single owner of one value, declared with a capacity in words.

use vstd::prelude::*;
use vstd::layout::{align_of, size_of};
use core::marker::PhantomData;
use core::ops::{Deref, DerefMut};
use crate::layout::{
    check_layout, layout_verdict, lemma_word_is_u64, lemma_words_cover, words_for, LayoutError,
    WORD_BYTES,
};

verus! {

/// A word-aligned marker of no size. One exists only for a capacity `SIZE`
/// and a value type `T` that pass the layout rule, so a cell that carries one
/// is known to have a valid layout for as long as it lives.
#[allow(dead_code)]
struct Footing<const SIZE: usize, T> {
    words: [u64; 0],
    holds: PhantomData<T>,
}

impl<const SIZE: usize, T> Footing<SIZE, T> {
    #[verifier::type_invariant]
    spec fn admitted(self) -> bool {
        ReprCWrapper::<SIZE, T>::layout_ok()
    }
}

/// An opaque cell of `SIZE` words that owns one value of type `T`.
///
/// The value is held inline. The cell is its only owner: the value is dropped
/// with the cell, unless `into_inner` has handed it back first. The cell adds
/// nothing to the value's behaviour; reads and writes go through `Deref` and
/// `DerefMut`, and the view of a cell is the value itself.
pub struct ReprCWrapper<const SIZE: usize, T> {
    #[allow(dead_code)]
    footing: Footing<SIZE, T>,
    value: T,
}

impl<const SIZE: usize, T> View for ReprCWrapper<SIZE, T> {
    type V = T;

    closed spec fn view(&self) -> T {
        self.value
    }
}

impl<const SIZE: usize, T> ReprCWrapper<SIZE, T> {
    /// Whether a cell of `SIZE` words may hold a `T`: a word is aligned at
    /// least as strictly as `T`, and `SIZE` is the number of words a `T`
    /// occupies.
    pub open spec fn layout_ok() -> bool {
        &&& align_of::<T>() <= align_of::<u64>()
        &&& SIZE == words_for(size_of::<T>())
    }

    /// The number of bytes that `SIZE` words take up.
    pub open spec fn storage_bytes() -> nat {
        (SIZE * WORD_BYTES) as nat
    }

    /// A cell's storage is `SIZE` words of the size of a `u64`, whatever the
    /// value type is.
    pub proof fn lemma_storage_is_whole_words()
        ensures
            Self::storage_bytes() == SIZE * size_of::<u64>(),
    {
        lemma_word_is_u64();
    }

    /// Under a valid layout the cell's words hold the whole value, with less
    /// than one word to spare.
    pub proof fn lemma_storage_holds_value()
        requires
            Self::layout_ok(),
        ensures
            size_of::<T>() <= Self::storage_bytes() < size_of::<T>() + WORD_BYTES,
    {
        lemma_words_cover(size_of::<T>());
    }

    /// Measures `T` and a word, and applies the layout rule to them and
    /// `SIZE`.
    pub fn check() -> (verdict: Result<(), LayoutError>)
        ensures
            verdict == layout_verdict(
                align_of::<T>(),
                align_of::<u64>(),
                size_of::<T>(),
                SIZE as nat,
            ),
            verdict is Ok <==> Self::layout_ok(),
            verdict == Err::<(), LayoutError>(LayoutError::AlignmentViolation) <==> (align_of::<T>()
                > align_of::<u64>()),
            verdict == Err::<(), LayoutError>(LayoutError::CapacityMismatch) <==> (align_of::<T>()
                <= align_of::<u64>() && SIZE != words_for(size_of::<T>())),
    {
        check_layout(
            core::mem::align_of::<T>(),
            core::mem::align_of::<u64>(),
            core::mem::size_of::<T>(),
            SIZE,
        )
    }

    /// Wraps `val` in a cell, which becomes its owner.
    pub fn new(val: T) -> (cell: Self)
        requires
            Self::layout_ok(),
        ensures
            cell@ == val,
    {
        ReprCWrapper { footing: Footing { words: [], holds: PhantomData }, value: val }
    }

    /// Wraps `val` in a cell if the layout rule admits it, and says which
    /// part of the rule is broken if not.
    pub fn try_new(val: T) -> (made: Result<Self, LayoutError>)
        ensures
            made is Ok <==> Self::layout_ok(),
            match made {
                Ok(cell) => Self::layout_ok() && cell@ == val,
                Err(fault) => Err::<(), LayoutError>(fault) == layout_verdict(
                    align_of::<T>(),
                    align_of::<u64>(),
                    size_of::<T>(),
                    SIZE as nat,
                ),
            },
    {
        match Self::check() {
            Ok(()) => Ok(Self::new(val)),
            Err(fault) => Err(fault),
        }
    }

    /// Consumes the cell and hands its value back to the caller.
    pub fn into_inner(self) -> (val: T)
        ensures
            val == self@,
            Self::layout_ok(),
    {
        proof {
            use_type_invariant(&self.footing);
        }
        self.value
    }

    /// Extracting from a cell that was just made gives back the value that
    /// was wrapped: if `cell` is what `new(val)` returned and `out` is what
    /// `cell.into_inner()` returned, then `out` is `val`.
    pub proof fn lemma_round_trip(val: T, cell: Self, out: T)
        requires
            call_ensures(Self::new, (val,), cell),
            call_ensures(Self::into_inner, (cell,), out),
        ensures
            out == val,
    {
    }

    /// Reading a cell that was just made sees the value that was wrapped, and
    /// nothing else: if `cell` is what `new(val)` returned and `seen` is what
    /// a read of `cell` returned, then `seen` refers to `val`.
    pub proof fn lemma_wrap_then_read(val: T, cell: Self, seen: &T)
        requires
            call_ensures(Self::new, (val,), cell),
            call_ensures(<Self as Deref>::deref, (&cell,), seen),
        ensures
            *seen == val,
    {
    }

    /// A write through the mutable borrow is visible to every later read: if
    /// `slot` is the borrow that `deref_mut` handed out for `cell`, and `seen`
    /// is what a read returned once that borrow had ended, then `seen` refers
    /// to the value that the borrow was left with.
    pub proof fn lemma_write_then_read(cell: &mut Self, slot: &mut T, seen: &T)
        requires
            call_ensures(<Self as DerefMut>::deref_mut, (cell,), slot),
            call_ensures(<Self as Deref>::deref, (&*final(cell),), seen),
        ensures
            *seen == *final(slot),
    {
    }

    /// A write through the mutable borrow decides what the cell gives up: if
    /// `slot` is the borrow that `deref_mut` handed out for `cell`, and `out`
    /// is what `into_inner` returned once that borrow had ended, then `out` is
    /// the value that the borrow was left with.
    pub proof fn lemma_write_then_extract(cell: &mut Self, slot: &mut T, out: T)
        requires
            call_ensures(<Self as DerefMut>::deref_mut, (cell,), slot),
            call_ensures(Self::into_inner, (*final(cell),), out),
        ensures
            out == *final(slot),
    {
    }
}

impl<const SIZE: usize, T> Deref for ReprCWrapper<SIZE, T> {
    type Target = T;

    /// Borrows the value.
    fn deref(&self) -> (inner: &T)
        ensures
            *inner == self@,
            Self::layout_ok(),
    {
        proof {
            use_type_invariant(&self.footing);
        }
        &self.value
    }
}

impl<const SIZE: usize, T> DerefMut for ReprCWrapper<SIZE, T> {
    /// Borrows the value for writing. The cell holds in the end what the
    /// borrow holds in the end.
    fn deref_mut(&mut self) -> (inner: &mut T)
        ensures
            *inner == old(self)@,
            final(self)@ == *final(inner),
            Self::layout_ok(),
    {
        proof {
            use_type_invariant(&self.footing);
        }
        &mut self.value
    }
}

} // verus!
