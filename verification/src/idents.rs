//! Identity-element traits: a named zero, one and minus-one per numeric type,
//! with value-level detection built on top of them.

use vstd::prelude::*;
use vstd::std_specs::cmp::PartialEqSpec;

verus! {

/// A type with a distinguished zero value.
pub trait Zero: Sized {
    /// The zero value, at the specification level.
    spec fn spec_zero() -> Self;

    /// The zero value.
    fn zero() -> (r: Self)
        ensures
            r == Self::spec_zero(),
    ;
}

/// The zero value of a type, as a free function.
pub fn zero<T: Zero>() -> (r: T)
    ensures
        r == T::spec_zero(),
{
    T::zero()
}

impl Zero for u8 {
    open spec fn spec_zero() -> Self {
        0u8
    }

    fn zero() -> (r: Self) {
        0
    }
}

impl Zero for u16 {
    open spec fn spec_zero() -> Self {
        0u16
    }

    fn zero() -> (r: Self) {
        0
    }
}

impl Zero for u32 {
    open spec fn spec_zero() -> Self {
        0u32
    }

    fn zero() -> (r: Self) {
        0
    }
}

impl Zero for u64 {
    open spec fn spec_zero() -> Self {
        0u64
    }

    fn zero() -> (r: Self) {
        0
    }
}

impl Zero for usize {
    open spec fn spec_zero() -> Self {
        0usize
    }

    fn zero() -> (r: Self) {
        0
    }
}

impl Zero for i8 {
    open spec fn spec_zero() -> Self {
        0i8
    }

    fn zero() -> (r: Self) {
        0
    }
}

impl Zero for i16 {
    open spec fn spec_zero() -> Self {
        0i16
    }

    fn zero() -> (r: Self) {
        0
    }
}

impl Zero for i32 {
    open spec fn spec_zero() -> Self {
        0i32
    }

    fn zero() -> (r: Self) {
        0
    }
}

impl<T0: Zero, T1: Zero> Zero for (T0, T1) {
    open spec fn spec_zero() -> Self {
        (T0::spec_zero(), T1::spec_zero())
    }

    fn zero() -> (r: Self) {
        (T0::zero(), T1::zero())
    }
}

/// Whether a value is the zero of its type.
pub trait IsZero {
    fn is_zero(&self) -> bool;
}

impl<T: Zero + PartialEq> IsZero for T {
    fn is_zero(&self) -> (r: bool)
        ensures
            T::obeys_eq_spec() ==> r == self.eq_spec(&T::spec_zero()),
    {
        *self == T::zero()
    }
}

/// Unwrapping that falls back to the zero of the payload type.
pub trait OptionExt<T> {
    fn unwrap_or_zero(self) -> T;
}

impl<T: Zero> OptionExt<T> for Option<T> {
    fn unwrap_or_zero(self) -> (r: T)
        ensures
            self is Some ==> r == self.unwrap(),
            self is None ==> r == T::spec_zero(),
    {
        match self {
            Option::Some(x) => x,
            Option::None => T::zero(),
        }
    }
}

/// A type with a distinguished one value.
pub trait One: Sized {
    /// The one value, at the specification level.
    spec fn spec_one() -> Self;

    /// The one value.
    fn one() -> (r: Self)
        ensures
            r == Self::spec_one(),
    ;
}

impl One for u8 {
    open spec fn spec_one() -> Self {
        1u8
    }

    fn one() -> (r: Self) {
        1
    }
}

impl One for i8 {
    open spec fn spec_one() -> Self {
        1i8
    }

    fn one() -> (r: Self) {
        1
    }
}

/// Whether a value is the one of its type.
pub trait IsOne {
    fn is_one(&self) -> bool;
}

impl<T: One + PartialEq> IsOne for T {
    fn is_one(&self) -> (r: bool)
        ensures
            T::obeys_eq_spec() ==> r == self.eq_spec(&T::spec_one()),
    {
        *self == T::one()
    }
}

/// A type with a distinguished minus-one value.
pub trait MinusOne: Sized {
    /// The minus-one value, at the specification level.
    spec fn spec_minus_one() -> Self;

    /// The minus-one value.
    fn minus_one() -> (r: Self)
        ensures
            r == Self::spec_minus_one(),
    ;
}

impl MinusOne for i8 {
    open spec fn spec_minus_one() -> Self {
        -1i8
    }

    fn minus_one() -> (r: Self) {
        -1
    }
}

/// Whether a value is the minus-one of its type.
pub trait IsMinusOne {
    fn is_minus_one(&self) -> bool;
}

impl<T: MinusOne + PartialEq> IsMinusOne for T {
    fn is_minus_one(&self) -> (r: bool)
        ensures
            T::obeys_eq_spec() ==> r == self.eq_spec(&T::spec_minus_one()),
    {
        *self == T::minus_one()
    }
}

impl IsMinusOne for u8 {
    /// No unsigned value is minus one.
    fn is_minus_one(&self) -> (r: bool)
        ensures
            !r,
    {
        false
    }
}

}
