//! The failure of an insertion into a full container.

use vstd::prelude::*;

verus! {

/// An insertion found the container full.
///
/// The error owns the value that could not be inserted, so that the caller
/// can have it back. `CapacityExceededError<()>` is the form without a
/// value.
#[derive(Debug)]
pub struct CapacityExceededError<T = ()> {
    value: T,
}

impl<T> View for CapacityExceededError<T> {
    type V = T;

    /// The rejected value.
    closed spec fn view(&self) -> T {
        self.value
    }
}

impl<T> CapacityExceededError<T> {
    /// The failure that hands `value` back.
    #[inline]
    pub fn new(value: T) -> (e: Self)
        ensures
            e@ == value,
    {
        Self { value }
    }

    /// Forgets the rejected value.
    #[inline]
    pub fn simplify(self) -> (e: CapacityExceededError)
        ensures
            e@ == (),
    {
        CapacityExceededError { value: () }
    }

    /// The rejected value, as it was passed in.
    #[inline]
    pub fn into_inner(self) -> (value: T)
        ensures
            value == self@,
    {
        self.value
    }

    /// What the failure says of itself, whatever value it carries.
    pub fn message(&self) -> (text: &'static str)
        ensures
            text@ == "capacity exceeded"@,
    {
        "capacity exceeded"
    }
}

impl<T: Copy> CapacityExceededError<T> {
    /// `into_inner` for element types that are copied rather than moved.
    pub fn const_into_inner(self) -> (value: T)
        ensures
            value == self@,
    {
        self.value
    }

    /// `simplify` for element types that are copied rather than moved.
    pub fn const_simplify(self) -> (e: CapacityExceededError)
        ensures
            e@ == (),
    {
        CapacityExceededError { value: () }
    }
}

} // verus!
