//! Fixed-point integer arithmetic helpers.
//!
//! Executable code computes in `i128` so that any product of two in-range
//! 64-bit values is exact; division rounds toward zero, matching the cast
//! conventions of the wire formats this engine speaks.

use vstd::prelude::*;

verus! {

/// Quotient rounded toward zero (assumes `b > 0`).
pub open spec fn div_trunc(a: int, b: int) -> int {
    if a >= 0 {
        a / b
    } else {
        -((-a) / b)
    }
}

/// `x` forced into `[lo, hi]` (assumes `lo <= hi`).
pub open spec fn clamp_spec(x: int, lo: int, hi: int) -> int {
    if x < lo {
        lo
    } else if x > hi {
        hi
    } else {
        x
    }
}

/// Exact product of two 64-bit values.
pub fn mul_wide(a: i64, b: i64) -> (r: i128)
    ensures
        r == a as int * b as int,
{
    proof {
        assert(a as int * b as int <= i128::MAX && a as int * b as int >= i128::MIN)
            by (nonlinear_arith)
            requires
                i64::MIN <= a <= i64::MAX,
                i64::MIN <= b <= i64::MAX,
        ;
    }
    (a as i128) * (b as i128)
}

/// Quotient of 128-bit values, rounded toward zero.
pub fn div_wide(a: i128, b: i128) -> (r: i128)
    requires
        b > 0,
    ensures
        r == div_trunc(a as int, b as int),
{
    a / b
}

/// `a * b / d` with an exact intermediate product, rounded toward zero.
pub fn mul_div(a: i64, b: i64, d: i64) -> (r: i128)
    requires
        d > 0,
    ensures
        r == div_trunc(a as int * b as int, d as int),
{
    let p = mul_wide(a, b);
    div_wide(p, d as i128)
}

/// The smaller of two values.
pub fn min_i64(a: i64, b: i64) -> (r: i64)
    ensures
        r == if a <= b { a as int } else { b as int },
{
    if a <= b { a } else { b }
}

/// The larger of two values.
pub fn max_i64(a: i64, b: i64) -> (r: i64)
    ensures
        r == if a >= b { a as int } else { b as int },
{
    if a >= b { a } else { b }
}

/// `x` forced into `[lo, hi]`.
pub fn clamp_i64(x: i64, lo: i64, hi: i64) -> (r: i64)
    requires
        lo <= hi,
    ensures
        r == clamp_spec(x as int, lo as int, hi as int),
{
    if x < lo {
        lo
    } else if x > hi {
        hi
    } else {
        x
    }
}

/// A 128-bit value brought back to 64 bits, saturating at the extremes.
pub fn sat_i64(x: i128) -> (r: i64)
    ensures
        r == clamp_spec(x as int, i64::MIN as int, i64::MAX as int),
{
    if x < i64::MIN as i128 {
        i64::MIN
    } else if x > i64::MAX as i128 {
        i64::MAX
    } else {
        x as i64
    }
}

/// Next value of a free-running counter, wrapping at the top.
pub fn wrap_inc(x: u64) -> (r: u64)
    ensures
        r == if x == u64::MAX {
            0u64
        } else {
            (x + 1) as u64
        },
{
    x.wrapping_add(1)
}

/// Sum of two 128-bit values, saturating at the extremes.
pub fn sat_add_i128(a: i128, b: i128) -> (r: i128)
    ensures
        r == clamp_spec(a + b, i128::MIN as int, i128::MAX as int),
{
    match a.checked_add(b) {
        Some(v) => v,
        None => if b >= 0 {
            i128::MAX
        } else {
            i128::MIN
        },
    }
}

/// Difference of two 128-bit values, saturating at the extremes.
pub fn sat_sub_i128(a: i128, b: i128) -> (r: i128)
    ensures
        r == clamp_spec(a - b, i128::MIN as int, i128::MAX as int),
{
    match a.checked_sub(b) {
        Some(v) => v,
        None => if b <= 0 {
            i128::MAX
        } else {
            i128::MIN
        },
    }
}

/// Truncating division stays within the bound of its dividend's scale:
/// if `|a| <= c * b` then `|div_trunc(a, b)| <= c`.
pub proof fn lemma_div_trunc_bound(a: int, b: int, c: int)
    requires
        b > 0,
        c >= 0,
        -(c * b) <= a <= c * b,
    ensures
        -c <= div_trunc(a, b) <= c,
{
    if a >= 0 {
        assert(a / b <= c) by (nonlinear_arith)
            requires
                b > 0,
                c >= 0,
                a <= c * b,
                a >= 0,
        ;
        assert(a / b >= 0) by (nonlinear_arith)
            requires
                b > 0,
                a >= 0,
        ;
    } else {
        assert((-a) / b <= c) by (nonlinear_arith)
            requires
                b > 0,
                c >= 0,
                -a <= c * b,
                -a >= 0,
        ;
        assert((-a) / b >= 0) by (nonlinear_arith)
            requires
                b > 0,
                -a >= 0,
        ;
    }
}

} // verus!
