//! Exact fixed-point arithmetic for the simulation.
//!
//! Every physical quantity in the library (seconds, metres, gains, thrust
//! fractions) is a signed count of ten-thousandths of its natural unit,
//! held in an `i64`.  All operations round toward zero, as machine division
//! does, and each executable operation carries a contract that pins its
//! result to the corresponding spec-level function exactly.

use vstd::prelude::*;
use vstd::arithmetic::div_mod::{
    lemma_div_by_multiple, lemma_div_is_ordered, lemma_div_nonincreasing, lemma_div_pos_is_pos,
};

verus! {

/// Number of fixed-point units in one whole unit.
pub const SCALE: i64 = 10_000;

/// Magnitude admitted for a raw input quantity (a time, a setpoint, a
/// measurement, a gain, a noise sample): room is left for the sums and
/// differences the simulation forms from such quantities.
pub const IN_BOUND: i64 = 1_000_000_000;

/// Largest magnitude admitted for either factor of `fp_mul`: the product of
/// two such factors stays within `i64`.
pub const MUL_BOUND: i64 = 3_030_000_000;

/// Largest magnitude admitted for the dividend of `fp_div`: such a dividend
/// scaled by `SCALE` stays within `i64`.
pub const DIV_BOUND: i64 = 900_000_000_000_000;

/// Quotient rounded toward zero, the rounding machine division performs;
/// spec-mode `/` alone is Euclidean and differs on negative dividends.
pub open spec fn quot(a: int, b: int) -> int {
    if a >= 0 {
        a / b
    } else {
        -((-a) / b)
    }
}

/// Product of two fixed-point values, rounded toward zero.
pub open spec fn fmul(a: int, b: int) -> int {
    quot(a * b, SCALE as int)
}

/// Quotient of two fixed-point values, rounded toward zero.
pub open spec fn fdiv(a: int, b: int) -> int {
    quot(a * SCALE, b)
}

/// `x` forced into `[lo, hi]`.
pub open spec fn clamped(x: int, lo: int, hi: int) -> int {
    if x < lo {
        lo
    } else if x > hi {
        hi
    } else {
        x
    }
}

/// A truncated quotient never grows past the dividend's magnitude.
pub proof fn lemma_quot_mag(a: int, b: int)
    requires
        0 < b,
    ensures
        a >= 0 ==> 0 <= quot(a, b) <= a,
        a < 0 ==> a <= quot(a, b) <= 0,
{
    if a >= 0 {
        lemma_div_pos_is_pos(a, b);
        lemma_div_nonincreasing(a, b);
    } else {
        lemma_div_pos_is_pos(-a, b);
        lemma_div_nonincreasing(-a, b);
    }
}

/// A bound on the dividend gives the matching bound on the truncated quotient.
pub proof fn lemma_quot_bound(a: int, b: int, m: int)
    requires
        0 < b,
        -m <= a <= m,
        0 <= m,
    ensures
        -(m / b) <= quot(a, b) <= m / b,
{
    lemma_div_pos_is_pos(m, b);
    if a >= 0 {
        lemma_div_pos_is_pos(a, b);
        lemma_div_is_ordered(a, m, b);
    } else {
        lemma_div_pos_is_pos(-a, b);
        lemma_div_is_ordered(-a, m, b);
    }
}

/// Bounds on both factors give the scaled bound on a fixed-point product.
pub proof fn lemma_fmul_bound(a: int, b: int, ma: int, mb: int)
    requires
        -ma <= a <= ma,
        -mb <= b <= mb,
        0 <= ma,
        0 <= mb,
    ensures
        -(ma * mb / (SCALE as int)) <= fmul(a, b) <= ma * mb / (SCALE as int),
{
    assert(-(ma * mb) <= a * b <= ma * mb) by (nonlinear_arith)
        requires
            -ma <= a <= ma,
            -mb <= b <= mb,
            0 <= ma,
            0 <= mb,
    ;
    assert(0 <= ma * mb) by (nonlinear_arith)
        requires
            0 <= ma,
            0 <= mb,
    ;
    lemma_quot_bound(a * b, SCALE as int, ma * mb);
}

/// A fixed-point product of two values from `[0, 1]` stays in `[0, 1]`.
pub proof fn lemma_fmul_unit_range(a: int, b: int)
    requires
        0 <= a <= SCALE,
        0 <= b <= SCALE,
    ensures
        0 <= fmul(a, b) <= SCALE,
{
    assert(0 <= a * b <= (SCALE as int) * (SCALE as int)) by (nonlinear_arith)
        requires
            0 <= a <= SCALE,
            0 <= b <= SCALE,
    ;
    lemma_quot_mag(a * b, SCALE as int);
    lemma_div_is_ordered(a * b, (SCALE as int) * (SCALE as int), SCALE as int);
    lemma_div_by_multiple(SCALE as int, SCALE as int);
}

/// Scaling by the whole unit is exact: `fmul(a, SCALE) == a`.
pub proof fn lemma_fmul_scale_exact(a: int)
    requires
        0 <= a,
    ensures
        fmul(a, SCALE as int) == a,
{
    assert(0 <= a * SCALE) by (nonlinear_arith)
        requires
            0 <= a,
    ;
    lemma_div_by_multiple(a, SCALE as int);
}

/// Truncating division by a positive divisor.
pub fn div_trunc(a: i64, b: i64) -> (r: i64)
    requires
        0 < b,
    ensures
        r == quot(a as int, b as int),
{
    proof {
        lemma_quot_mag(a as int, b as int);
    }
    a / b
}

/// Fixed-point product: `(a * b) / SCALE`, rounded toward zero.
pub fn fp_mul(a: i64, b: i64) -> (r: i64)
    requires
        -MUL_BOUND <= a <= MUL_BOUND,
        -MUL_BOUND <= b <= MUL_BOUND,
    ensures
        r == fmul(a as int, b as int),
{
    proof {
        assert(-9_180_900_000_000_000_000 <= a * b <= 9_180_900_000_000_000_000)
            by (nonlinear_arith)
            requires
                -3_030_000_000 <= a <= 3_030_000_000,
                -3_030_000_000 <= b <= 3_030_000_000,
        ;
    }
    let p: i64 = a * b;
    div_trunc(p, SCALE)
}

/// Fixed-point quotient: `(a * SCALE) / b`, rounded toward zero.
pub fn fp_div(a: i64, b: i64) -> (r: i64)
    requires
        -DIV_BOUND <= a <= DIV_BOUND,
        0 < b,
    ensures
        r == fdiv(a as int, b as int),
{
    let n: i64 = a * SCALE;
    div_trunc(n, b)
}

/// `x` forced into `[lo, hi]`.
pub fn clamp(x: i64, lo: i64, hi: i64) -> (r: i64)
    requires
        lo <= hi,
    ensures
        r == clamped(x as int, lo as int, hi as int),
{
    if x < lo {
        lo
    } else if x > hi {
        hi
    } else {
        x
    }
}

} // verus!
