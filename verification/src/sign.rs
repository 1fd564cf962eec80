//! Sign detection and absolute value for signed numeric types.

use vstd::prelude::*;

verus! {

/// A signed type with a sign function and an absolute value.
pub trait Signed: Sized {
    /// The sign of the value (`-1`, `0` or `1`), at the specification level.
    spec fn spec_signum(&self) -> Self;

    /// The absolute value, at the specification level.
    spec fn spec_abs(&self) -> Self;

    /// Whether the absolute value is representable: the minimum of a
    /// two's-complement type has no in-range negation.
    spec fn abs_in_range(&self) -> bool;

    /// The sign of the value: `-1`, `0` or `1`.
    fn signum(&self) -> (r: Self)
        ensures
            r == self.spec_signum(),
    ;

    /// The absolute value.
    fn abs(&self) -> (r: Self)
        requires
            self.abs_in_range(),
        ensures
            r == self.spec_abs(),
    ;
}

impl Signed for i16 {
    open spec fn spec_signum(&self) -> i16 {
        if *self > 0 {
            1i16
        } else if *self < 0 {
            -1i16
        } else {
            0i16
        }
    }

    open spec fn spec_abs(&self) -> i16 {
        if *self < 0 {
            (-(*self as int)) as i16
        } else {
            *self
        }
    }

    open spec fn abs_in_range(&self) -> bool {
        *self != i16::MIN
    }

    fn signum(&self) -> (r: i16) {
        if *self > 0 {
            1
        } else if *self < 0 {
            -1
        } else {
            0
        }
    }

    fn abs(&self) -> (r: i16) {
        if *self < 0 {
            -*self
        } else {
            *self
        }
    }
}

impl Signed for i32 {
    open spec fn spec_signum(&self) -> i32 {
        if *self > 0 {
            1i32
        } else if *self < 0 {
            -1i32
        } else {
            0i32
        }
    }

    open spec fn spec_abs(&self) -> i32 {
        if *self < 0 {
            (-(*self as int)) as i32
        } else {
            *self
        }
    }

    open spec fn abs_in_range(&self) -> bool {
        *self != i32::MIN
    }

    fn signum(&self) -> (r: i32) {
        if *self > 0 {
            1
        } else if *self < 0 {
            -1
        } else {
            0
        }
    }

    fn abs(&self) -> (r: i32) {
        if *self < 0 {
            -*self
        } else {
            *self
        }
    }
}

/// The sign of a value: `-1`, `0` or `1`.
pub fn sign<T: Signed>(x: T) -> (r: T)
    ensures
        r == x.spec_signum(),
{
    x.signum()
}

/// The absolute value. The minimum of a two's-complement type is excluded:
/// its negation is not representable.
pub fn abs<T: Signed>(x: T) -> (r: T)
    requires
        x.abs_in_range(),
    ensures
        r == x.spec_abs(),
{
    x.abs()
}

}
