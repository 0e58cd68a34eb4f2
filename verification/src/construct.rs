//! Building a container from elements that already exist, and overwriting
//! one with clones of a slice.

use vstd::prelude::*;
use crate::FlexArray;
use crate::Slots;

verus! {

/// `<[T; N]>::map` consumes the array and calls `f` once on each element, in
/// order; the result holds at `i` what `f` returned for the element at `i`.
/// The contract says exactly that, through the closure's own contract.
pub assume_specification<Element, const N: usize, F, Mapped>[ <[Element; N]>::map ](
    array: [Element; N],
    f: F,
) -> (mapped: [Mapped; N]) where F: FnMut(Element) -> Mapped
    requires
        forall|i: int| 0 <= i < N ==> f.requires((#[trigger] array@[i],)),
    ensures
        forall|i: int| 0 <= i < N ==> f.ensures((array@[i],), #[trigger] mapped@[i]),
;

/// The smaller of two lengths.
pub open spec fn min_len(a: nat, b: nat) -> nat {
    if a <= b {
        a
    } else {
        b
    }
}

impl<T, const CAP: usize> FlexArray<T, CAP> {
    /// Moves the elements of `array` into a new container, in order. Where
    /// the array is longer than the capacity, the first `CAP` elements are
    /// taken and the others are dropped.
    #[inline]
    pub fn from_array<const N: usize>(array: [T; N]) -> (built: Self)
        ensures
            built.wf(),
            built.slots() == Slots::from_seq(CAP as nat, array@),
            built@ == array@.take(min_len(N as nat, CAP as nat) as int),
    {
        let mut items = array.map(|element: T| -> (slot: Option<T>)
            ensures slot == Some(element)
            { Some(element) });
        let count: usize = if N <= CAP {
            N
        } else {
            CAP
        };
        let mut built = Self::new();
        let mut i: usize = 0;
        while i < count
            invariant
                i <= count,
                count == min_len(N as nat, CAP as nat),
                built.wf(),
                built.slots().len == i,
                forall|j: int|
                    0 <= j < i ==> (#[trigger] built.slots().cells[j]) == Some(array@[j]),
                forall|j: int| i <= j < CAP ==> (#[trigger] built.slots().cells[j]) is None,
                forall|j: int| i <= j < N ==> (#[trigger] items@[j]) == Some(array@[j]),
            decreases count - i,
        {
            match items[i].take() {
                Some(element) => built.push_unchecked(element),
                None => vstd::pervasive::unreached(),
            }
            i += 1;
        }
        assert(built.slots().cells =~= Slots::from_seq(CAP as nat, array@).cells);
        assert(built@ =~= array@.take(count as int));
        built
    }
}

impl<T: Clone, const CAP: usize> FlexArray<T, CAP> {
    /// Clones the elements of `source` into a new container, in order,
    /// through its spare capacity. Where the slice is longer than the
    /// capacity, the first `CAP` elements are cloned and the others are
    /// left out; that is no error.
    ///
    /// The length is set once, after the last clone. Should a clone panic
    /// before that, the slots filled so far are dropped with the container.
    pub fn from_slice(source: &[T]) -> (built: Self)
        ensures
            built.wf(),
            built@.len() == min_len(source@.len(), CAP as nat),
            forall|i: int| 0 <= i < built@.len() ==> cloned(source@[i], #[trigger] built@[i]),
            forall|i: int| built@.len() <= i < CAP ==> (#[trigger] built.slots().cells[i]) is None,
    {
        let mut built = Self::new();
        let spare = built.spare_capacity_mut();
        let count: usize = if source.len() <= spare.len() {
            source.len()
        } else {
            spare.len()
        };
        let mut i: usize = 0;
        while i < count
            invariant
                i <= count <= CAP,
                count == min_len(source@.len(), CAP as nat),
                spare@.len() == CAP,
                forall|j: int|
                    0 <= j < i ==> (#[trigger] spare@[j]) is Some && cloned(
                        source@[j],
                        spare@[j].unwrap(),
                    ),
                forall|j: int| i <= j < CAP ==> (#[trigger] spare@[j]) is None,
                after_borrow(built).slots() == Slots::<T>::vacant(CAP as nat).with_spare(
                    final(spare)@,
                ),
            decreases count - i,
        {
            spare[i] = Some(source[i].clone());
            i += 1;
        }
        built.set_len(count);
        built
    }

    /// Makes the container hold clones of the first elements of `source`,
    /// as many as fit.
    ///
    /// The container is first truncated to that number; the elements that
    /// remain are overwritten with clones, one by one; then clones of the
    /// rest of `source` are pushed.
    pub fn clone_from_slice(&mut self, source: &[T])
        requires
            old(self).wf(),
        ensures
            final(self).wf(),
            final(self)@.len() == min_len(source@.len(), CAP as nat),
            forall|i: int|
                0 <= i < final(self)@.len() ==> cloned(source@[i], #[trigger] final(self)@[i]),
            forall|i: int|
                final(self)@.len() <= i < CAP ==> (#[trigger] final(self).slots().cells[i]) == old(
                    self,
                ).slots().truncate(final(self)@.len()).cells[i],
    {
        let len: usize = if source.len() <= self.capacity() {
            source.len()
        } else {
            self.capacity()
        };
        self.truncate(len);
        let kept = self.len();
        let mut i: usize = 0;
        while i < kept
            invariant
                i <= kept <= len,
                len == min_len(source@.len(), CAP as nat),
                self.wf(),
                self.slots().len == kept,
                forall|j: int| 0 <= j < i ==> cloned(source@[j], #[trigger] self@[j]),
                forall|j: int|
                    kept <= j < CAP ==> (#[trigger] self.slots().cells[j]) == old(
                        self,
                    ).slots().truncate(len as nat).cells[j],
            decreases kept - i,
        {
            let element = self.index_mut(i);
            *element = source[i].clone();
            i += 1;
        }
        while i < len
            invariant
                kept <= i <= len,
                len == min_len(source@.len(), CAP as nat),
                self.wf(),
                self.slots().len == i,
                forall|j: int| 0 <= j < i ==> cloned(source@[j], #[trigger] self@[j]),
                forall|j: int|
                    i <= j < CAP ==> (#[trigger] self.slots().cells[j]) == old(
                        self,
                    ).slots().truncate(len as nat).cells[j],
            decreases len - i,
        {
            self.push_unchecked(source[i].clone());
            i += 1;
        }
    }

    /// Makes the container hold clones of the live elements of `source`,
    /// in the way of `clone_from_slice`: truncate, overwrite what remains,
    /// push the rest. The spare capacity of `source` plays no part.
    pub fn clone_from(&mut self, source: &Self)
        requires
            old(self).wf(),
            source.wf(),
        ensures
            final(self).wf(),
            final(self)@.len() == source@.len(),
            forall|i: int|
                0 <= i < source@.len() ==> cloned(source@[i], #[trigger] final(self)@[i]),
            forall|i: int|
                source@.len() <= i < CAP ==> (#[trigger] final(self).slots().cells[i]) == old(
                    self,
                ).slots().truncate(source@.len()).cells[i],
    {
        let len = source.len();
        self.truncate(len);
        let kept = self.len();
        let mut i: usize = 0;
        while i < kept
            invariant
                i <= kept <= len,
                len == source@.len(),
                len <= CAP,
                source.wf(),
                self.wf(),
                self.slots().len == kept,
                forall|j: int| 0 <= j < i ==> cloned(source@[j], #[trigger] self@[j]),
                forall|j: int|
                    kept <= j < CAP ==> (#[trigger] self.slots().cells[j]) == old(
                        self,
                    ).slots().truncate(len as nat).cells[j],
            decreases kept - i,
        {
            let element = self.index_mut(i);
            *element = source[i].clone();
            i += 1;
        }
        while i < len
            invariant
                kept <= i <= len,
                len == source@.len(),
                len <= CAP,
                source.wf(),
                self.wf(),
                self.slots().len == i,
                forall|j: int| 0 <= j < i ==> cloned(source@[j], #[trigger] self@[j]),
                forall|j: int|
                    i <= j < CAP ==> (#[trigger] self.slots().cells[j]) == old(
                        self,
                    ).slots().truncate(len as nat).cells[j],
            decreases len - i,
        {
            self.push_unchecked(source[i].clone());
            i += 1;
        }
    }
}

} // verus!
