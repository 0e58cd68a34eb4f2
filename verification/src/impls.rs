//! The container as a value among others: a default, clones, `[]`, `==`,
//! hashing and conversions.

use vstd::prelude::*;
use vstd::std_specs::cmp::PartialEqSpec;
use vstd::std_specs::convert::FromSpecImpl;
use crate::FlexArray;
use crate::Slots;
use crate::construct::min_len;

verus! {

impl<T, const CAP: usize> Default for FlexArray<T, CAP> {
    /// The empty container.
    #[inline]
    fn default() -> (array: Self)
        ensures
            array.wf(),
            array.slots() == Slots::<T>::vacant(CAP as nat),
            array@ == Seq::<T>::empty(),
    {
        Self::new()
    }
}

impl<T: Clone, const CAP: usize> Clone for FlexArray<T, CAP> {
    /// A container of its own with a clone of each live element, in order,
    /// and nothing in its spare capacity.
    ///
    /// The copy is well formed whatever `self` is. Of a container that
    /// unchecked access has left ill formed, the live elements up to the
    /// first vacant slot are cloned.
    #[inline]
    fn clone(&self) -> (copy: Self)
        ensures
            copy.wf(),
            forall|i: int| copy@.len() <= i < CAP ==> (#[trigger] copy.slots().cells[i]) is None,
            self.wf() ==> {
                &&& copy@.len() == self@.len()
                &&& forall|i: int| 0 <= i < self@.len() ==> cloned(self@[i], #[trigger] copy@[i])
            },
    {
        let slots = self.as_ptr();
        let len = self.len();
        let mut copy = Self::new();
        proof {
            self.lemma_capacity();
        }
        let mut i: usize = 0;
        while i < len && i < CAP
            invariant
                i <= CAP,
                i <= len,
                slots@ == self.slots().cells,
                slots@.len() == CAP,
                len == self.slots().len,
                copy.wf(),
                copy.slots().len == i,
                self.wf() ==> forall|j: int| 0 <= j < i ==> cloned(self@[j], #[trigger] copy@[j]),
                forall|j: int| i <= j < CAP ==> (#[trigger] copy.slots().cells[j]) is None,
            decreases CAP - i,
        {
            match &slots[i] {
                Some(element) => copy.push(element.clone()),
                None => {
                    return copy;
                },
            }
            i += 1;
        }
        copy
    }
}

impl<T, const CAP: usize> core::ops::Index<usize> for FlexArray<T, CAP> {
    type Output = T;

    /// The live element at `index`.
    #[inline]
    fn index(&self, index: usize) -> (element: &T)
        ensures
            *element == self@[index as int],
    {
        match &self.as_slice()[index] {
            Some(element) => element,
            None => vstd::pervasive::unreached(),
        }
    }
}

impl<T, const CAP: usize> vstd::std_specs::core::IndexSpecImpl<usize> for FlexArray<T, CAP> {
    /// Indexing asks for a well-formed container and an index below its
    /// length.
    open spec fn index_req(&self, index: &usize) -> bool {
        self.wf() && *index < self@.len()
    }
}

impl<T: PartialEq, const CAP: usize> PartialEq for FlexArray<T, CAP> {
    /// Compares the live elements, one by one, and nothing else.
    fn eq(&self, other: &Self) -> (equal: bool) {
        if self.len() != other.len() {
            return false;
        }
        let len = self.len();
        let left = self.as_ptr();
        let right = other.as_ptr();
        proof {
            self.lemma_capacity();
            other.lemma_capacity();
        }
        let mut i: usize = 0;
        while i < len && i < CAP
            invariant
                i <= CAP,
                left@ == self.slots().cells,
                right@ == other.slots().cells,
                left@.len() == CAP,
                right@.len() == CAP,
                len == self.slots().len,
                len == other.slots().len,
                T::obeys_eq_spec() ==> forall|j: int|
                    0 <= j < i ==> (#[trigger] left@[j]).eq_spec(&right@[j]),
            decreases CAP - i,
        {
            if !(left[i] == right[i]) {
                return false;
            }
            i += 1;
        }
        true
    }
}

impl<T: PartialEq, const CAP: usize> vstd::std_specs::cmp::PartialEqSpecImpl for FlexArray<T, CAP> {
    open spec fn obeys_eq_spec() -> bool {
        T::obeys_eq_spec()
    }

    /// Of well-formed containers: equal lengths and live elements that
    /// are equal one by one.
    open spec fn eq_spec(&self, other: &Self) -> bool {
        prefix_eq(self.slots(), other.slots())
    }
}

/// Equal lengths, and slot by slot equal live prefixes.
pub open spec fn prefix_eq<T: PartialEq>(left: Slots<T>, right: Slots<T>) -> bool {
    &&& left.len == right.len
    &&& forall|i: int|
        0 <= i < left.len && i < left.capacity() ==> (#[trigger] left.cells[i]).eq_spec(
            &right.cells[i],
        )
}

/// Of well-formed containers `==` says that the lengths are equal and the
/// live elements are equal one by one.
pub proof fn lemma_eq_spec_live<T: PartialEq, const CAP: usize>(
    left: &FlexArray<T, CAP>,
    right: &FlexArray<T, CAP>,
)
    requires
        left.wf(),
        right.wf(),
    ensures
        left.eq_spec(right) <==> {
            &&& left@.len() == right@.len()
            &&& forall|i: int| 0 <= i < left@.len() ==> (#[trigger] left@[i]).eq_spec(&right@[i])
        },
{
    if left.eq_spec(right) {
        assert forall|i: int| 0 <= i < left@.len() implies (#[trigger] left@[i]).eq_spec(
            &right@[i],
        ) by {
            assert(left.slots().cells[i].eq_spec(&right.slots().cells[i]));
        }
    }
    if left@.len() == right@.len() && (forall|i: int|
        0 <= i < left@.len() ==> (#[trigger] left@[i]).eq_spec(&right@[i])) {
        assert forall|i: int| 0 <= i < left.slots().len && i < CAP implies (
        #[trigger] left.slots().cells[i]).eq_spec(&right.slots().cells[i]) by {
            assert(left@[i].eq_spec(&right@[i]));
        }
    }
}

impl<T, const N: usize, const CAP: usize> From<[T; N]> for FlexArray<T, CAP> {
    /// Moves the first elements of `value` in, as many as fit.
    #[inline]
    fn from(value: [T; N]) -> (built: Self)
        ensures
            built.wf(),
            built.slots() == Slots::from_seq(CAP as nat, value@),
            built@ == value@.take(min_len(N as nat, CAP as nat) as int),
    {
        let built = Self::from_array(value);
        proof {
            built.lemma_of_slots();
        }
        built
    }
}

impl<T, const N: usize, const CAP: usize> FromSpecImpl<[T; N]> for FlexArray<T, CAP> {
    open spec fn obeys_from_spec() -> bool {
        true
    }

    open spec fn from_spec(value: [T; N]) -> Self {
        Self::of_slots(Slots::from_seq(CAP as nat, value@))
    }
}

impl<T: Clone, const CAP: usize> From<&[T]> for FlexArray<T, CAP> {
    /// Clones the first elements of `value` in, as many as fit.
    #[inline]
    fn from(value: &[T]) -> (built: Self)
        ensures
            built.wf(),
            built@.len() == min_len(value@.len(), CAP as nat),
            forall|i: int| 0 <= i < built@.len() ==> cloned(value@[i], #[trigger] built@[i]),
            forall|i: int| built@.len() <= i < CAP ==> (#[trigger] built.slots().cells[i]) is None,
    {
        Self::from_slice(value)
    }
}

impl<T: Clone, const CAP: usize> FromSpecImpl<&[T]> for FlexArray<T, CAP> {
    /// What a clone is like is up to the element type, so the result is
    /// no function of the slice.
    open spec fn obeys_from_spec() -> bool {
        false
    }

    open spec fn from_spec(value: &[T]) -> Self {
        Self::of_slots(Slots::from_seq(CAP as nat, value@))
    }
}

impl<T: Clone, const CAP: usize> From<&mut [T]> for FlexArray<T, CAP> {
    /// Clones the first elements of `value` in, as many as fit, and leaves
    /// the slice as it is.
    #[inline]
    fn from(value: &mut [T]) -> (built: Self)
        ensures
            built.wf(),
            built@.len() == min_len(old(value)@.len(), CAP as nat),
            forall|i: int| 0 <= i < built@.len() ==> cloned(old(value)@[i], #[trigger] built@[i]),
            forall|i: int| built@.len() <= i < CAP ==> (#[trigger] built.slots().cells[i]) is None,
            final(value)@ == old(value)@,
    {
        Self::from_slice(value)
    }
}

impl<T: Clone, const CAP: usize> FromSpecImpl<&mut [T]> for FlexArray<T, CAP> {
    open spec fn obeys_from_spec() -> bool {
        false
    }

    open spec fn from_spec(value: &mut [T]) -> Self {
        Self::of_slots(Slots::from_seq(CAP as nat, value@))
    }
}

impl<T: Clone, const N: usize, const CAP: usize> From<&[T; N]> for FlexArray<T, CAP> {
    /// Clones the first elements of `value` in, as many as fit.
    #[inline]
    fn from(value: &[T; N]) -> (built: Self)
        ensures
            built.wf(),
            built@.len() == min_len(N as nat, CAP as nat),
            forall|i: int| 0 <= i < built@.len() ==> cloned(value@[i], #[trigger] built@[i]),
            forall|i: int| built@.len() <= i < CAP ==> (#[trigger] built.slots().cells[i]) is None,
    {
        Self::from_slice(value.as_slice())
    }
}

impl<T: Clone, const N: usize, const CAP: usize> FromSpecImpl<&[T; N]> for FlexArray<T, CAP> {
    open spec fn obeys_from_spec() -> bool {
        false
    }

    open spec fn from_spec(value: &[T; N]) -> Self {
        Self::of_slots(Slots::from_seq(CAP as nat, value@))
    }
}

/// `Hash::hash` feeds `value` into the hasher. What that does to the
/// hasher is not modelled, so nothing is claimed of it.
#[verifier::external_body]
fn hash_element<T: core::hash::Hash, H: core::hash::Hasher>(value: &T, state: &mut H) {
    value.hash(state)
}

/// `Hasher::write_usize` feeds a length into the hasher. Nothing is
/// claimed of the hasher afterwards.
#[verifier::external_body]
fn hash_length<H: core::hash::Hasher>(len: usize, state: &mut H) {
    state.write_usize(len)
}

impl<T: core::hash::Hash, const CAP: usize> core::hash::Hash for FlexArray<T, CAP> {
    /// Hashes what a slice of the live elements would: the length, then
    /// each live element in order. The spare capacity takes no part.
    fn hash<H: core::hash::Hasher>(&self, state: &mut H) {
        let slots = self.as_ptr();
        let len = self.len();
        hash_length(len, state);
        proof {
            self.lemma_capacity();
        }
        let mut i: usize = 0;
        while i < len && i < CAP
            invariant
                i <= CAP,
                slots@.len() == CAP,
            decreases CAP - i,
        {
            match &slots[i] {
                Some(element) => hash_element(element, state),
                None => {},
            }
            i += 1;
        }
    }
}

impl<T: Eq, const CAP: usize> Eq for FlexArray<T, CAP> {
}

impl<T, const CAP: usize> AsRef<FlexArray<T, CAP>> for FlexArray<T, CAP> {
    /// The container itself.
    #[inline]
    fn as_ref(&self) -> (same: &FlexArray<T, CAP>)
        ensures
            *same == *self,
    {
        self
    }
}

impl<T, const CAP: usize> AsMut<FlexArray<T, CAP>> for FlexArray<T, CAP> {
    /// The container itself, for writing.
    #[inline]
    fn as_mut(&mut self) -> (same: &mut FlexArray<T, CAP>)
        ensures
            *same == *old(self),
            *final(self) == *final(same),
    {
        self
    }
}

} // verus!
