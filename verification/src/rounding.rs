//! Rounding-mode-aware integer division: floor and ceiling division on
//! unsigned operands, and truncating/floor/ceiling division of a signed
//! numerator by an unsigned denominator.

use vstd::arithmetic::div_mod::{lemma_fundamental_div_mod, lemma_fundamental_div_mod_converse};
use vstd::prelude::*;

verus! {

/// Mathematical floor division. For `d > 0`, Euclidean division (`/` on
/// `int`) rounds toward negative infinity, so this is the true floor.
pub open spec fn floor_div(n: int, d: int) -> int
    recommends
        d > 0,
{
    n / d
}

/// Mathematical ceiling division for `d > 0`, written with the classic
/// adjust-then-floor formula, which is exact for every integer `n`.
pub open spec fn ceil_div(n: int, d: int) -> int
    recommends
        d > 0,
{
    (n + d - 1) / d
}

/// Integer division truncated toward zero, the native semantics of `/` on
/// signed machine integers.
pub open spec fn trunc_div(n: int, d: int) -> int
    recommends
        d > 0,
{
    if n >= 0 {
        n / d
    } else {
        -((-n) / d)
    }
}

/// Remainder of truncating division: same sign as the numerator `n`.
pub open spec fn trunc_rem(n: int, d: int) -> int
    recommends
        d > 0,
{
    n - d * trunc_div(n, d)
}

/// Unsigned division rounded toward negative infinity (equal to truncation,
/// since both operands are non-negative).
pub fn div_floor(n: u32, d: u32) -> (q: u32)
    requires
        d > 0,
    ensures
        q == floor_div(n as int, d as int),
        q * d <= n < (q + 1) * d,
{
    proof {
        lemma_fundamental_div_mod(n as int, d as int);
        assert((n as int / d as int) * d == d * (n as int / d as int)) by (nonlinear_arith);
        assert((n as int / d as int + 1) * d == d * (n as int / d as int) + d) by (nonlinear_arith);
    }
    n / d
}

/// Unsigned division rounded toward positive infinity, computed as
/// `(n + d - 1) / d`. The caller must keep `n + d - 1` within `u32`; the
/// adjusted numerator would otherwise wrap and the result would be wrong.
pub fn div_ceil(n: u32, d: u32) -> (q: u32)
    requires
        d > 0,
        n + d - 1 <= u32::MAX,
    ensures
        q == ceil_div(n as int, d as int),
        q == floor_div(n + d - 1, d as int),
        n <= q * d,
        q > 0 ==> (q - 1) * d < n,
{
    let m: u32 = d - 1 + n;
    proof {
        let ni = n as int;
        let di = d as int;
        lemma_fundamental_div_mod(ni + di - 1, di);
        let qi = (ni + di - 1) / di;
        let ri = (ni + di - 1) % di;
        assert(ni <= qi * di) by (nonlinear_arith)
            requires
                di > 0,
                0 <= ri < di,
                ni + di - 1 == di * qi + ri;
        assert((qi - 1) * di < ni) by (nonlinear_arith)
            requires
                di > 0,
                0 <= ri < di,
                ni + di - 1 == di * qi + ri;
    }
    m / d
}

/// Quotient and remainder of truncating division of a signed numerator by an
/// unsigned denominator; the remainder carries the sign of `n`.
pub fn idiv_rem(n: i32, d: u32) -> (qr: (i32, i32))
    requires
        d > 0,
    ensures
        qr.0 == trunc_div(n as int, d as int),
        qr.1 == trunc_rem(n as int, d as int),
        n >= 0 ==> 0 <= qr.1 < d,
        n < 0 ==> -(d as int) < qr.1 <= 0,
{
    if n >= 0 {
        let q: u32 = (n as u32) / d;
        let r: u32 = (n as u32) % d;
        proof {
            let ni = n as int;
            let di = d as int;
            lemma_fundamental_div_mod(ni, di);
            assert(q <= ni && r <= ni) by (nonlinear_arith)
                requires
                    di > 0,
                    ni >= 0,
                    q >= 0,
                    0 <= r < di,
                    ni == di * q + r;
        }
        (q as i32, r as i32)
    } else {
        let m: u32 = (-(n as i64)) as u32;
        let q: u32 = m / d;
        let r: u32 = m % d;
        proof {
            let mi = m as int;
            let di = d as int;
            lemma_fundamental_div_mod(mi, di);
            assert(mi == -(n as int));
            assert(q <= mi && r <= mi) by (nonlinear_arith)
                requires
                    di > 0,
                    mi >= 0,
                    q >= 0,
                    0 <= r < di,
                    mi == di * q + r;
            assert(-(di * (mi / di)) == di * (-(mi / di))) by (nonlinear_arith);
        }
        ((-(q as i64)) as i32, (-(r as i64)) as i32)
    }
}

/// Signed division rounded toward negative infinity: the truncating quotient,
/// adjusted down by one when the remainder is negative.
pub fn idiv_floor(n: i32, d: u32) -> (q: i32)
    requires
        d > 0,
    ensures
        q == floor_div(n as int, d as int),
        d * q <= n < d * (q + 1),
{
    let (qt, rt) = idiv_rem(n, d);
    proof {
        let ni = n as int;
        let di = d as int;
        let qi = qt as int;
        let ri = rt as int;
        assert(ni == di * qi + ri);
        if ri < 0 {
            // A negative remainder means a negative numerator, so the
            // truncating quotient is at most zero and the decrement below
            // cannot underflow.
            assert(qi <= 0) by (nonlinear_arith)
                requires
                    di > 0,
                    ni < 0,
                    ni == di * qi + ri,
                    -di < ri <= 0;
            assert(qi > i32::MIN) by (nonlinear_arith)
                requires
                    di > 0,
                    -di < ri < 0,
                    ni == di * qi + ri,
                    ni >= i32::MIN,
                    qi <= 0;
            assert(ni == (qi - 1) * di + (ri + di) && di * (qi - 1) == di * qi - di)
                by (nonlinear_arith)
                requires
                    ni == di * qi + ri;
            lemma_fundamental_div_mod_converse(ni, di, qi - 1, ri + di);
        } else {
            assert(ni == qi * di + ri && di * (qi + 1) == di * qi + di) by (nonlinear_arith)
                requires
                    ni == di * qi + ri;
            lemma_fundamental_div_mod_converse(ni, di, qi, ri);
        }
    }
    if rt < 0 {
        qt - 1
    } else {
        qt
    }
}

/// Signed division rounded toward positive infinity: the truncating quotient,
/// adjusted up by one when the remainder is positive.
pub fn idiv_ceil(n: i32, d: u32) -> (q: i32)
    requires
        d > 0,
    ensures
        q == ceil_div(n as int, d as int),
        d * (q - 1) < n <= d * q,
{
    let (qt, rt) = idiv_rem(n, d);
    proof {
        let ni = n as int;
        let di = d as int;
        let qi = qt as int;
        let ri = rt as int;
        assert(ni == di * qi + ri);
        if ri > 0 {
            // A positive remainder means a positive numerator, so the
            // truncating quotient is non-negative and the increment below
            // cannot overflow.
            assert(qi >= 0) by (nonlinear_arith)
                requires
                    di > 0,
                    ni >= 0,
                    ni == di * qi + ri,
                    0 <= ri < di;
            assert(qi < i32::MAX) by (nonlinear_arith)
                requires
                    di > 0,
                    0 < ri < di,
                    ni == di * qi + ri,
                    ni <= i32::MAX,
                    qi >= 0;
            assert(ni + di - 1 == (qi + 1) * di + (ri - 1) && di * (qi + 1) == di * qi + di)
                by (nonlinear_arith)
                requires
                    ni == di * qi + ri;
            lemma_fundamental_div_mod_converse(ni + di - 1, di, qi + 1, ri - 1);
        } else {
            assert(ni + di - 1 == qi * di + (ri + di - 1) && di * (qi - 1) == di * qi - di)
                by (nonlinear_arith)
                requires
                    ni == di * qi + ri;
            lemma_fundamental_div_mod_converse(ni + di - 1, di, qi, ri + di - 1);
        }
    }
    if rt > 0 {
        qt + 1
    } else {
        qt
    }
}

/// Ceiling division never falls below floor division, and the two agree
/// exactly when the divisor divides the numerator.
pub proof fn lemma_ceil_div_ge_floor_div(n: int, d: int)
    requires
        d > 0,
    ensures
        floor_div(n, d) <= ceil_div(n, d) <= floor_div(n, d) + 1,
        n % d == 0 ==> ceil_div(n, d) == floor_div(n, d),
        n % d != 0 ==> ceil_div(n, d) == floor_div(n, d) + 1,
{
    lemma_fundamental_div_mod(n, d);
    let q = n / d;
    let r = n % d;
    if r == 0 {
        assert(n + d - 1 == q * d + (d - 1)) by (nonlinear_arith)
            requires
                n == d * q + r,
                r == 0;
        lemma_fundamental_div_mod_converse(n + d - 1, d, q, d - 1);
    } else {
        assert(n + d - 1 == (q + 1) * d + (r - 1)) by (nonlinear_arith)
            requires
                n == d * q + r;
        lemma_fundamental_div_mod_converse(n + d - 1, d, q + 1, r - 1);
    }
}

/// Ceiling division is floor division of the numerator adjusted up by
/// `d - 1`: the identity behind `div_ceil`.
pub proof fn lemma_ceil_div_via_floor_div(n: int, d: int)
    requires
        d > 0,
    ensures
        ceil_div(n, d) == floor_div(n + d - 1, d),
{
}

}
