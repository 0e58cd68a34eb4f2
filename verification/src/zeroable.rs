//! Element types with a zero value.

use vstd::prelude::*;

verus! {

/// A type whose all-zero value is a value like any other.
///
/// Zero-filled storage holds this value in every slot, which is why the
/// zero-filled constructors ask for it.
pub trait Zeroable: Sized {
    /// The zero value.
    spec fn zero() -> Self;

    /// Makes the zero value.
    fn zeroed() -> (z: Self)
        ensures
            z == Self::zero(),
    ;
}

impl Zeroable for bool {
    open spec fn zero() -> bool {
        false
    }

    fn zeroed() -> bool {
        false
    }
}

impl Zeroable for u8 {
    open spec fn zero() -> u8 {
        0
    }

    fn zeroed() -> u8 {
        0
    }
}

impl Zeroable for u16 {
    open spec fn zero() -> u16 {
        0
    }

    fn zeroed() -> u16 {
        0
    }
}

impl Zeroable for u32 {
    open spec fn zero() -> u32 {
        0
    }

    fn zeroed() -> u32 {
        0
    }
}

impl Zeroable for u64 {
    open spec fn zero() -> u64 {
        0
    }

    fn zeroed() -> u64 {
        0
    }
}

impl Zeroable for usize {
    open spec fn zero() -> usize {
        0
    }

    fn zeroed() -> usize {
        0
    }
}

impl Zeroable for i8 {
    open spec fn zero() -> i8 {
        0
    }

    fn zeroed() -> i8 {
        0
    }
}

impl Zeroable for i16 {
    open spec fn zero() -> i16 {
        0
    }

    fn zeroed() -> i16 {
        0
    }
}

impl Zeroable for i32 {
    open spec fn zero() -> i32 {
        0
    }

    fn zeroed() -> i32 {
        0
    }
}

impl Zeroable for i64 {
    open spec fn zero() -> i64 {
        0
    }

    fn zeroed() -> i64 {
        0
    }
}

impl Zeroable for isize {
    open spec fn zero() -> isize {
        0
    }

    fn zeroed() -> isize {
        0
    }
}

} // verus!
