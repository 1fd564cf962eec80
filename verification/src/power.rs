//! Small powers of an unsigned integer, and hooks for types that carry their
//! own square-root and base-2 logarithm.

use vstd::prelude::*;

verus! {

/// The square of `x`. The caller must keep `x * x` within `u32`.
pub fn sq(x: u32) -> (r: u32)
    requires
        x * x <= u32::MAX,
    ensures
        r == x * x,
{
    x * x
}

/// The cube of `x`. The caller must keep `x * x * x` within `u32`.
pub fn cb(x: u32) -> (r: u32)
    requires
        x * x * x <= u32::MAX,
    ensures
        r == x * x * x,
{
    proof {
        assert(x * x <= x * x * x || x == 0) by (nonlinear_arith);
    }
    x * x * x
}

/// A type with its own square root. No contract is stated: which root (and
/// with what precision) is up to the implementing type.
pub trait Sqrt {
    fn sqrt(self) -> Self;
}

/// The square root of a value, as a free function.
pub fn sqrt<T: Sqrt>(x: T) -> T {
    x.sqrt()
}

/// A type with its own base-2 logarithm. No contract is stated: the rounding
/// of the result is up to the implementing type.
pub trait Log {
    fn log2(self) -> Self;
}

/// The base-2 logarithm of a value, as a free function.
pub fn log2<T: Log>(x: T) -> T {
    x.log2()
}

}
