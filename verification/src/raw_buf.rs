//! The storage of a bounded array: a fixed row of slots and nothing more.

use vstd::prelude::*;
use crate::zeroable::Zeroable;

verus! {

/// `core::array::from_fn` builds an array by calling `f` once for each
/// index, walking forward; the element at `i` is what `f` returned for `i`.
/// The contract says exactly that, through the closure's own contract.
pub assume_specification<T, const N: usize, F>[ core::array::from_fn ](f: F) -> (array: [T; N])
    where F: FnMut(usize) -> T
    requires
        forall|i: usize| i < N ==> f.requires((i,)),
    ensures
        forall|i: usize| i < N ==> f.ensures((i,), #[trigger] array@[i as int]),
;

/// `CAP` slots laid out in line, each vacant (`None`) or occupied (`Some`).
///
/// The buffer knows nothing of which slots are live: it reserves the room
/// and hands out the row of slots, for reading or for writing.
pub(crate) struct RawBuf<T, const CAP: usize> {
    buf: [Option<T>; CAP],
}

impl<T, const CAP: usize> View for RawBuf<T, CAP> {
    type V = Seq<Option<T>>;

    closed spec fn view(&self) -> Seq<Option<T>> {
        self.buf@
    }
}

impl<T, const CAP: usize> RawBuf<T, CAP> {
    /// The row has `CAP` slots, whatever they hold.
    pub(crate) proof fn lemma_len(&self)
        ensures
            self@.len() == CAP,
    {
    }

    /// Two buffers that hold the same in every slot are the same buffer.
    pub(crate) proof fn lemma_ext_equal(&self, other: &Self)
        requires
            self@ == other@,
        ensures
            *self == *other,
    {
        assert(self.buf =~= other.buf);
    }

    /// Storage in which every slot is vacant.
    #[inline]
    pub(crate) fn new() -> (raw: Self)
        ensures
            raw@ == Seq::new(CAP as nat, |i: int| None::<T>),
    {
        let raw = Self { buf: core::array::from_fn(|_i: usize| -> (slot: Option<T>)
            ensures slot is None
            { None }) };
        assert(raw@ =~= Seq::new(CAP as nat, |i: int| None::<T>));
        raw
    }

    /// The storage from its first slot on, for reading.
    #[inline]
    pub(crate) fn as_ptr(&self) -> (slots: &[Option<T>])
        ensures
            slots@ == self@,
    {
        &self.buf
    }

    /// The storage from its first slot on, for writing. Nothing is checked:
    /// the caller may fill or vacate any slot.
    #[inline]
    pub(crate) fn as_mut_ptr(&mut self) -> (slots: &mut [Option<T>])
        ensures
            slots@ == old(self)@,
            final(self)@ == final(slots)@,
    {
        &mut self.buf
    }

    /// The number of slots.
    #[inline]
    pub(crate) fn capacity(&self) -> (cap: usize)
        ensures
            cap == CAP,
            cap == self@.len(),
    {
        CAP
    }
}

impl<T: Zeroable, const CAP: usize> RawBuf<T, CAP> {
    /// Storage in which every slot holds the zero value.
    #[inline]
    pub(crate) fn zeroed() -> (raw: Self)
        ensures
            raw@ == Seq::new(CAP as nat, |i: int| Some(T::zero())),
    {
        let raw = Self { buf: core::array::from_fn(|_i: usize| -> (slot: Option<T>)
            ensures slot == Some(T::zero())
            { Some(T::zeroed()) }) };
        assert(raw@ =~= Seq::new(CAP as nat, |i: int| Some(T::zero())));
        raw
    }
}

} // verus!
