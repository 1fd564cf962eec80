//! An unreduced fraction of two unsigned 32-bit integers, used as an exact
//! scaling factor with caller-chosen rounding direction.
//!
//! Equality on `Ratio` is structural: `{1, 2}` and `{2, 4}` are distinct
//! values even though they denote the same rational. The `cmp` method, by
//! contrast, compares the mathematical values by cross-multiplication. This
//! asymmetry is deliberate and preserved.

use crate::rounding::{ceil_div, div_ceil, div_floor, floor_div, idiv_ceil, idiv_floor};
use crate::rounding::lemma_ceil_div_ge_floor_div;
use vstd::prelude::*;

verus! {

/// An unreduced fraction `num / div`. Construction is unchecked: `{0, 0}`
/// (`undefined`) is representable and only faults when a later operation
/// actually divides by the zero denominator.
#[derive(Clone, Copy, Debug, PartialEq, Eq, Hash, Structural)]
pub struct Ratio {
    pub num: u32,
    pub div: u32,
}

impl Default for Ratio {
    /// Defaults to the multiplicative identity `1/1`.
    fn default() -> (r: Self)
        ensures
            r == (Ratio { num: 1, div: 1 }),
    {
        Ratio { num: 1, div: 1 }
    }
}

impl Ratio {
    /// The reciprocal as a value: numerator and denominator swapped.
    pub open spec fn spec_rcp(self) -> Ratio {
        Ratio { num: self.div, div: self.num }
    }

    /// Swaps numerator and denominator. `{0, d}.rcp() == {d, 0}` is
    /// representable but mathematically meaningless: dividing by it faults.
    pub fn rcp(&self) -> (r: Ratio)
        ensures
            r == self.spec_rcp(),
            r.num == self.div,
            r.div == self.num,
    {
        Ratio { num: self.div, div: self.num }
    }

    /// Scales `x` by the ratio and rounds up: `ceil(x * num / div)`.
    /// The caller must keep `x * num + div - 1` within `u32`.
    pub fn ceil(&self, x: u32) -> (r: u32)
        requires
            self.div > 0,
            x * self.num + self.div - 1 <= u32::MAX,
        ensures
            r == ceil_div(x * self.num, self.div as int),
    {
        div_ceil(x * self.num, self.div)
    }

    /// Scales `x` by the ratio and rounds down: `floor(x * num / div)`.
    /// The caller must keep `x * num` within `u32`.
    pub fn floor(&self, x: u32) -> (r: u32)
        requires
            self.div > 0,
            x * self.num <= u32::MAX,
        ensures
            r == floor_div(x * self.num, self.div as int),
    {
        div_floor(x * self.num, self.div)
    }

    /// Scales a signed `x` by the ratio and rounds toward negative infinity.
    /// The caller must keep `x * num` within `i32`.
    pub fn ifloor(&self, x: i32) -> (r: i32)
        requires
            self.div > 0,
            i32::MIN <= x * self.num <= i32::MAX,
        ensures
            r == floor_div(x * self.num, self.div as int),
    {
        let p: i32 = self.iscale(x);
        idiv_floor(p, self.div)
    }

    /// Scales a signed `x` by the ratio and rounds toward positive infinity.
    /// The caller must keep `x * num` within `i32`.
    pub fn iceil(&self, x: i32) -> (r: i32)
        requires
            self.div > 0,
            i32::MIN <= x * self.num <= i32::MAX,
        ensures
            r == ceil_div(x * self.num, self.div as int),
    {
        let p: i32 = self.iscale(x);
        idiv_ceil(p, self.div)
    }

    /// The signed numerator scaled by `num`, multiplied in 64 bits so that
    /// the product is exact before it is narrowed back to `i32`.
    fn iscale(&self, x: i32) -> (p: i32)
        requires
            i32::MIN <= x * self.num <= i32::MAX,
        ensures
            p == x * self.num,
    {
        proof {
            assert(i32::MIN as i64 <= (x as i64) * (self.num as i64) <= i32::MAX as i64)
                by (nonlinear_arith)
                requires
                    i32::MIN <= (x as int) * (self.num as int) <= i32::MAX,
                    x as i64 == x as int,
                    self.num as i64 == self.num as int;
        }
        ((x as i64) * (self.num as i64)) as i32
    }

    /// Divides an unsigned `x` by the ratio, rounding down: multiplication by
    /// the reciprocal, `floor(x * div / num)`. The caller must keep `x * div`
    /// within `u32`.
    pub fn udiv(&self, x: u32) -> (r: u32)
        requires
            self.num > 0,
            x * self.div <= u32::MAX,
        ensures
            r == floor_div(x * self.div, self.num as int),
    {
        div_floor(x * self.div, self.num)
    }

    /// Divides a signed `x` by the ratio, rounding toward negative infinity:
    /// `floor(x * div / num)`. The caller must keep `x * div` within `i32`.
    pub fn idiv(&self, x: i32) -> (r: i32)
        requires
            self.num > 0,
            i32::MIN <= x * self.div <= i32::MAX,
        ensures
            r == floor_div(x * self.div, self.num as int),
    {
        let p: i32 = self.rcp().iscale(x);
        idiv_floor(p, self.num)
    }

    /// Componentwise product of two ratios, left unreduced. The caller must
    /// keep both componentwise products within `u32`.
    pub fn mul_ratio(self, b: Ratio) -> (r: Ratio)
        requires
            self.num * b.num <= u32::MAX,
            self.div * b.div <= u32::MAX,
        ensures
            r == (Ratio { num: (self.num * b.num) as u32, div: (self.div * b.div) as u32 }),
    {
        Ratio { num: self.num * b.num, div: self.div * b.div }
    }

    /// Compares the mathematical values of two ratios by cross-multiplication:
    /// `num / div <= b.num / b.div` iff `num * b.div <= b.num * div`. Unlike
    /// `==`, this sees `{1, 2}` and `{2, 4}` as equal. The caller must keep
    /// both cross products within `u32`.
    pub fn cmp(&self, other: &Ratio) -> (r: core::cmp::Ordering)
        requires
            self.num * other.div <= u32::MAX,
            other.num * self.div <= u32::MAX,
        ensures
            r == core::cmp::Ordering::Less <==> self.num * other.div < other.num * self.div,
            r == core::cmp::Ordering::Equal <==> self.num * other.div == other.num * self.div,
            r == core::cmp::Ordering::Greater <==> self.num * other.div > other.num * self.div,
    {
        let a: u32 = self.num * other.div;
        let b: u32 = other.num * self.div;
        if a < b {
            core::cmp::Ordering::Less
        } else if a == b {
            core::cmp::Ordering::Equal
        } else {
            core::cmp::Ordering::Greater
        }
    }
}

/// Taking the reciprocal twice is the identity, field for field.
pub proof fn lemma_rcp_involutive(r: Ratio)
    ensures
        r.spec_rcp().spec_rcp() == r,
{
}

/// Rounding up never falls below rounding down: `r.ceil(x)` is at least
/// `r.floor(x)`, they differ by at most one, and both equal the exact quotient
/// `x * num / div` whenever `div` divides `x * num`.
pub proof fn lemma_ceil_floor_agree(r: Ratio, x: u32)
    requires
        r.div > 0,
    ensures
        floor_div(x * r.num, r.div as int) <= ceil_div(x * r.num, r.div as int)
            <= floor_div(x * r.num, r.div as int) + 1,
        (x * r.num) % (r.div as int) == 0 ==> ceil_div(x * r.num, r.div as int) == floor_div(
            x * r.num,
            r.div as int,
        ),
{
    lemma_ceil_div_ge_floor_div(x * r.num, r.div as int);
}

}
