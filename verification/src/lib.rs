//! A vector of fixed capacity whose storage lies in line: no heap and no
//! resizing.
//!
//! A [`FlexArray<T, CAP>`] owns `CAP` slots and a length. The first `len`
//! slots hold the live elements; the rest is spare capacity. Each slot is
//! either vacant or occupied, and the container is well formed when every
//! slot of the live prefix is occupied. The abstract state, with the
//! operations on it and the laws they obey, is in [`slots`].
//!
//! Every constructor gives a well-formed container and every operation
//! keeps it so, with three exceptions that hand out slots for writing:
//! `as_mut_ptr`, `as_mut_slice` and `spare_capacity_mut`. Their contracts
//! say what the container is in terms of what the caller wrote, and it is
//! for the caller to show that it is well formed again. `set_len` moves the
//! boundary of the live prefix and asks that every slot before the new
//! boundary be occupied.
//!
//! A slot owns what it holds. Vacating a slot drops the value, moving a
//! value out leaves the slot vacant, and dropping the container drops what
//! is left in its slots, each value once.

use vstd::prelude::*;

pub mod construct;
pub mod error;
pub mod impls;
pub mod slots;
pub mod zeroable;
mod raw_buf;

pub use error::CapacityExceededError;
pub use slots::Op;
pub use slots::Slots;
pub use zeroable::Zeroable;

use raw_buf::RawBuf;

verus! {

/// A bounded vector of at most `CAP` elements, stored in line.
///
/// In contracts, `array@` is the sequence of live elements and
/// `array.slots()` is the whole state: the length and what each slot holds.
pub struct FlexArray<T, const CAP: usize> {
    len: usize,
    buf: RawBuf<T, CAP>,
}

impl<T, const CAP: usize> View for FlexArray<T, CAP> {
    type V = Seq<T>;

    /// The live elements, in insertion order.
    open spec fn view(&self) -> Seq<T> {
        self.slots().live()
    }
}

impl<T, const CAP: usize> FlexArray<T, CAP> {
    /// The abstract state: the length and what each of the slots holds.
    pub closed spec fn slots(&self) -> Slots<T> {
        Slots { len: self.len as nat, cells: self.buf@ }
    }

    /// There are `CAP` slots, the length is at most `CAP`, and every slot
    /// of the live prefix is occupied.
    pub open spec fn wf(&self) -> bool {
        &&& self.slots().capacity() == CAP
        &&& self.slots().wf()
    }

    /// A container is no more than its state: two with the same length and
    /// the same slots are the same container.
    pub proof fn lemma_ext_equal(&self, other: &Self)
        requires
            self.slots() == other.slots(),
        ensures
            *self == *other,
    {
        self.buf.lemma_ext_equal(&other.buf);
    }

    /// The container with the state `slots`, where there is one.
    pub closed spec fn of_slots(slots: Slots<T>) -> Self {
        choose|array: Self| array.slots() == slots
    }

    /// `of_slots` finds this container behind its state.
    pub proof fn lemma_of_slots(&self)
        ensures
            Self::of_slots(self.slots()) == *self,
    {
        self.lemma_ext_equal(&Self::of_slots(self.slots()));
    }

    /// The storage has `CAP` slots in every state, well formed or not.
    pub proof fn lemma_capacity(&self)
        ensures
            self.slots().capacity() == CAP,
    {
        self.buf.lemma_len();
    }

    /// An empty container: no live element and every slot vacant.
    #[inline]
    pub fn new() -> (array: Self)
        ensures
            array.wf(),
            array.slots() == Slots::<T>::vacant(CAP as nat),
            array@ == Seq::<T>::empty(),
    {
        let array = Self { len: 0, buf: RawBuf::new() };
        assert(array@ =~= Seq::<T>::empty());
        array
    }

    /// The number of slots.
    #[inline]
    pub fn capacity(&self) -> (cap: usize)
        ensures
            cap == CAP,
            cap == self.slots().capacity(),
    {
        self.buf.capacity()
    }

    /// The number of live elements.
    #[inline]
    pub fn len(&self) -> (len: usize)
        ensures
            len == self.slots().len,
            len == self@.len(),
    {
        self.len
    }

    /// Whether there is no live element.
    #[inline]
    pub fn is_empty(&self) -> (empty: bool)
        ensures
            empty == self.slots().is_empty(),
            empty == (self@.len() == 0),
    {
        self.len() == 0
    }

    /// Whether the length has reached the capacity.
    #[inline]
    pub fn is_full(&self) -> (full: bool)
        ensures
            full == self.slots().is_full(),
            full == (self@.len() == CAP),
    {
        self.capacity() == self.len()
    }

    /// Whether one more element fits.
    #[inline]
    pub fn has_space(&self) -> (space: bool)
        ensures
            space == self.slots().has_space(),
            space == (self@.len() < CAP),
    {
        self.len() < self.capacity()
    }

    /// All `CAP` slots from the first on, live or spare, for reading.
    #[inline]
    pub fn as_ptr(&self) -> (slots: &[Option<T>])
        ensures
            slots@ == self.slots().cells,
    {
        self.buf.as_ptr()
    }

    /// All `CAP` slots from the first on, live or spare, for writing.
    ///
    /// Nothing is checked here. The length stays what it is, so the
    /// container is well formed afterwards only if the caller leaves every
    /// slot of the live prefix occupied.
    #[inline]
    pub fn as_mut_ptr(&mut self) -> (slots: &mut [Option<T>])
        ensures
            slots@ == old(self).slots().cells,
            final(self).slots() == old(self).slots().with_cells(final(slots)@),
    {
        self.buf.as_mut_ptr()
    }

    /// The slots of the live prefix, for reading. Each of them is occupied:
    /// the slice has the length of the container and its entry `i` holds
    /// element `i`.
    #[inline]
    pub fn as_slice(&self) -> (live: &[Option<T>])
        requires
            self.wf(),
        ensures
            live@ == self.slots().prefix(),
            live@.len() == self@.len(),
            forall|i: int| 0 <= i < self@.len() ==> live@[i] == Some(self@[i]),
    {
        let (live, _) = self.as_ptr().split_at(self.len);
        live
    }

    /// The slots of the live prefix, for writing.
    ///
    /// The length stays what it is, so the container is well formed
    /// afterwards only if the caller leaves every slot of the slice
    /// occupied. The spare capacity cannot be reached through it.
    #[inline]
    pub fn as_mut_slice(&mut self) -> (live: &mut [Option<T>])
        requires
            old(self).wf(),
        ensures
            live@ == old(self).slots().prefix(),
            final(self).slots() == old(self).slots().with_prefix(final(live)@),
    {
        let len = self.len;
        let (live, _) = self.as_mut_ptr().split_at_mut(len);
        live
    }

    /// The live element at `index`, for writing. Whatever is written
    /// replaces that element and nothing else changes.
    #[inline]
    pub fn index_mut(&mut self, index: usize) -> (element: &mut T)
        requires
            old(self).wf(),
            index < old(self)@.len(),
        ensures
            *element == old(self)@[index as int],
            final(self).wf(),
            final(self).slots() == old(self).slots().set(index as int, *final(element)),
            final(self)@ == old(self)@.update(index as int, *final(element)),
    {
        proof {
            let before = old(self).slots();
            assert forall|v: T|
                before.with_prefix(#[trigger] before.prefix().update(index as int, Some(v)))
                    == before.set(index as int, v) by {
                assert(before.with_prefix(before.prefix().update(index as int, Some(v))).cells
                    =~= before.set(index as int, v).cells);
            }
            assert forall|v: T| #[trigger]
                before.set(index as int, v).live() == old(self)@.update(index as int, v) by {
                assert(before.set(index as int, v).live() =~= old(self)@.update(index as int, v));
            }
        }
        match &mut self.as_mut_slice()[index] {
            Some(element) => element,
            None => vstd::pervasive::unreached(),
        }
    }

    /// Sets the length and does nothing else: no slot is filled and none is
    /// vacated.
    ///
    /// The caller answers for the slots that become live: each of the
    /// first `new_len` slots must be occupied. Slots that stop being live
    /// keep what they hold.
    #[inline]
    pub fn set_len(&mut self, new_len: usize)
        requires
            new_len <= CAP,
            forall|i: int| 0 <= i < new_len ==> (#[trigger] old(self).slots().cells[i]) is Some,
        ensures
            final(self).wf(),
            final(self).slots() == old(self).slots().set_len(new_len as nat),
    {
        proof {
            self.lemma_capacity();
        }
        self.len = new_len;
    }

    /// Appends `value` if there is space. If there is none, the container
    /// is left as it was and the error hands `value` back.
    #[inline]
    pub fn try_push(&mut self, value: T) -> (result: Result<(), CapacityExceededError<T>>)
        requires
            old(self).wf(),
        ensures
            final(self).wf(),
            final(self).slots() == old(self).slots().try_push(value),
            match result {
                Ok(_) => {
                    &&& old(self).slots().has_space()
                    &&& final(self)@ == old(self)@.push(value)
                },
                Err(error) => {
                    &&& old(self).slots().is_full()
                    &&& error@ == value
                    &&& *final(self) == *old(self)
                },
            },
    {
        if !self.has_space() {
            return Err(CapacityExceededError::new(value));
        }
        self.push_unchecked(value);
        Ok(())
    }

    /// Appends `value` to a container that has space for it.
    #[inline]
    pub fn push(&mut self, value: T)
        requires
            old(self).wf(),
            old(self).slots().has_space(),
        ensures
            final(self).wf(),
            final(self).slots() == old(self).slots().push(value),
            final(self)@ == old(self)@.push(value),
    {
        self.push_unchecked(value);
    }

    /// Removes the last live element and returns it; `None` from an empty
    /// container, which stays as it was.
    #[inline]
    pub fn pop(&mut self) -> (value: Option<T>)
        requires
            old(self).wf(),
        ensures
            final(self).wf(),
            final(self).slots() == old(self).slots().pop(),
            value == old(self).slots().last(),
            match value {
                Some(last) => {
                    &&& old(self)@.len() > 0
                    &&& last == old(self)@.last()
                    &&& final(self)@ == old(self)@.drop_last()
                },
                None => {
                    &&& old(self)@.len() == 0
                    &&& *final(self) == *old(self)
                },
            },
    {
        if self.is_empty() {
            return None;
        }
        Some(self.pop_unchecked())
    }

    /// Drops every live element and sets the length to zero. The slots of
    /// the dropped elements are left vacant; the capacity is what it was.
    #[inline]
    pub fn clear(&mut self)
        requires
            old(self).wf(),
        ensures
            final(self).wf(),
            final(self).slots() == old(self).slots().clear(),
            final(self)@ == Seq::<T>::empty(),
    {
        proof {
            old(self).slots().lemma_clear_empties();
        }
        self.truncate(0);
    }

    /// The spare capacity: the slots behind the live prefix, for writing.
    ///
    /// What is written here becomes live only by a later `set_len`. The
    /// live prefix cannot be reached through the returned slice.
    #[inline]
    pub fn spare_capacity_mut(&mut self) -> (spare: &mut [Option<T>])
        requires
            old(self).wf(),
        ensures
            spare@ == old(self).slots().spare(),
            final(self).slots() == old(self).slots().with_spare(final(spare)@),
    {
        let len = self.len;
        let (_, spare) = self.as_mut_ptr().split_at_mut(len);
        spare
    }

    /// Shortens the container to `len` elements, dropping the others from
    /// the lowest index up and leaving their slots vacant. Does nothing if
    /// `len` is not below the current length.
    #[inline]
    pub fn truncate(&mut self, len: usize)
        requires
            old(self).wf(),
        ensures
            final(self).wf(),
            final(self).slots() == old(self).slots().truncate(len as nat),
            len < old(self)@.len() ==> final(self)@ == old(self)@.take(len as int),
            len >= old(self)@.len() ==> final(self)@ == old(self)@,
    {
        if self.len < len {
            return;
        }
        proof {
            if len < self.len {
                old(self).slots().lemma_truncate_shorter(len as nat);
            }
        }
        let end = self.len;
        self.len = len;
        let mut i: usize = len;
        while i < end
            invariant
                len <= i <= end <= CAP,
                end == old(self).slots().len,
                self.slots().len == len,
                self.slots().cells == Seq::new(
                    CAP as nat,
                    |j: int|
                        if len <= j < i {
                            None
                        } else {
                            old(self).slots().cells[j]
                        },
                ),
            decreases end - i,
        {
            let slots = self.as_mut_ptr();
            slots[i] = None;
            i += 1;
            assert(self.slots().cells =~= Seq::new(
                CAP as nat,
                |j: int|
                    if len <= j < i {
                        None
                    } else {
                        old(self).slots().cells[j]
                    },
            ));
        }
        assert(self.slots() == old(self).slots().truncate(len as nat)) by {
            assert(self.slots().cells =~= old(self).slots().truncate(len as nat).cells);
        }
    }

    /// Writes `value` into the first spare slot and makes that slot live.
    #[inline]
    fn push_unchecked(&mut self, value: T)
        requires
            old(self).wf(),
            old(self).slots().has_space(),
        ensures
            final(self).wf(),
            final(self).slots() == old(self).slots().push(value),
            final(self)@ == old(self)@.push(value),
    {
        proof {
            old(self).slots().lemma_push_live(value);
        }
        let len = self.len;
        let slots = self.as_mut_ptr();
        slots[len] = Some(value);
        self.len = len + 1;
    }

    /// Moves the last live element out of its slot.
    #[inline]
    fn pop_unchecked(&mut self) -> (value: T)
        requires
            old(self).wf(),
            !old(self).slots().is_empty(),
        ensures
            final(self).wf(),
            final(self).slots() == old(self).slots().pop(),
            Some(value) == old(self).slots().last(),
            value == old(self)@.last(),
            final(self)@ == old(self)@.drop_last(),
    {
        proof {
            old(self).slots().lemma_pop_live();
        }
        self.len = self.len - 1;
        let len = self.len;
        let slots = self.as_mut_ptr();
        match slots[len].take() {
            Some(value) => value,
            None => vstd::pervasive::unreached(),
        }
    }
}

impl<T: Copy, const CAP: usize> FlexArray<T, CAP> {
    /// Sets the length to zero and touches no slot: elements that are
    /// `Copy` have nothing to drop.
    #[inline]
    pub fn const_clear(&mut self)
        ensures
            final(self).wf(),
            final(self).slots() == old(self).slots().set_len(0),
            final(self)@ == Seq::<T>::empty(),
    {
        self.set_len(0);
        assert(self@ =~= Seq::<T>::empty());
    }
}

impl<T: Zeroable, const CAP: usize> FlexArray<T, CAP> {
    /// An empty container whose slots all hold the zero value, so that any
    /// length up to `CAP` can be set at once.
    #[inline]
    pub fn zeroed() -> (array: Self)
        ensures
            array.wf(),
            array.slots() == Slots::filled(CAP as nat, T::zero()),
            array@ == Seq::<T>::empty(),
    {
        let array = Self { len: 0, buf: RawBuf::zeroed() };
        assert(array@ =~= Seq::<T>::empty());
        array
    }
}

} // verus!
