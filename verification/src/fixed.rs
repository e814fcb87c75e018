//! Fixed-point scalars: an `i64` counting millionths of a unit, with
//! truncating (round-toward-zero) multiplication and division, exactly as
//! Rust's own integer `/` behaves.

use vstd::prelude::*;
use vstd::arithmetic::div_mod::{
    lemma_div_is_ordered, lemma_div_multiples_vanish, lemma_div_nonincreasing,
    lemma_div_pos_is_pos,
};

verus! {

/// One unit (one metre, radian or second) in fixed-point representation.
pub const FX_ONE: i64 = 1_000_000;

/// Largest magnitude accepted by `fx_mul`; the product of two such values,
/// scaled down, still fits in an `i64`.
pub const FX_MUL_LIMIT: i64 = 3_000_000_000_000;

/// Magnitude of `n`.
pub open spec fn absi(n: int) -> int {
    if n >= 0 {
        n
    } else {
        -n
    }
}

/// Integer division rounding toward zero (what Rust's `/` does on machine
/// integers); meaningful for positive `d`.
pub open spec fn tdiv(n: int, d: int) -> int {
    if n >= 0 {
        n / d
    } else {
        -((-n) / d)
    }
}

/// Fixed-point product: the wide product scaled back down, truncated.
pub open spec fn fxmul(a: int, b: int) -> int {
    tdiv(a * b, FX_ONE as int)
}

/// `x` forced into `[lo, hi]`.
pub open spec fn clamped(x: int, lo: int, hi: int) -> int {
    if x < lo {
        lo
    } else if x > hi {
        hi
    } else {
        x
    }
}

/// Truncating division shrinks magnitudes: any `n` within `[-m, m]` divides
/// to a quotient within `[-tdiv(m, d), tdiv(m, d)]`, itself at most `m`.
pub proof fn lemma_tdiv_bounds(n: int, m: int, d: int)
    requires
        1 <= d,
        -m <= n <= m,
    ensures
        -tdiv(m, d) <= tdiv(n, d) <= tdiv(m, d),
        0 <= tdiv(m, d) <= m,
{
    lemma_div_pos_is_pos(m, d);
    lemma_div_nonincreasing(m, d);
    if n >= 0 {
        lemma_div_pos_is_pos(n, d);
        lemma_div_is_ordered(n, m, d);
    } else {
        lemma_div_pos_is_pos(-n, d);
        lemma_div_is_ordered(-n, m, d);
    }
}

/// A fixed-point product of values bounded by `ma` and `mb` is bounded by
/// the scaled-down product of the bounds.
pub proof fn lemma_fxmul_bounds(a: int, b: int, ma: int, mb: int)
    requires
        -ma <= a <= ma,
        -mb <= b <= mb,
    ensures
        -tdiv(ma * mb, FX_ONE as int) <= fxmul(a, b) <= tdiv(ma * mb, FX_ONE as int),
        0 <= tdiv(ma * mb, FX_ONE as int) <= ma * mb,
{
    assert(-(ma * mb) <= a * b <= ma * mb) by (nonlinear_arith)
        requires
            -ma <= a <= ma,
            -mb <= b <= mb,
    ;
    lemma_tdiv_bounds(a * b, ma * mb, FX_ONE as int);
}

/// Multiplying by a factor no larger than one (in fixed point) cannot grow
/// a value's magnitude.
pub proof fn lemma_fxmul_shrinks(a: int, b: int)
    requires
        0 <= b <= FX_ONE,
    ensures
        -absi(a) <= fxmul(a, b) <= absi(a),
{
    lemma_fxmul_bounds(a, b, absi(a), FX_ONE as int);
    lemma_div_multiples_vanish(absi(a), FX_ONE as int);
    assert(absi(a) * (FX_ONE as int) == (FX_ONE as int) * absi(a)) by (nonlinear_arith);
}

/// Scaling a nonnegative value by a factor no larger than one (fixed
/// point) loses at most the scaled-down complement of the factor, plus
/// one unit of truncation.
pub proof fn lemma_fxmul_drag_gap(v: int, drag: int)
    requires
        0 <= v,
        0 <= drag <= FX_ONE,
    ensures
        v - tdiv(v * (FX_ONE - drag), FX_ONE as int) - 1 <= fxmul(v, drag) <= v,
{
    let fx = FX_ONE as int;
    let diff = fx - drag;
    let q = tdiv(v * diff, fx);
    assert(0 <= v * drag && v * drag <= v * fx && 0 <= v * diff && v * drag == v * fx - v * diff)
        by (nonlinear_arith)
        requires
            0 <= v,
            0 <= drag <= fx,
            diff == fx - drag,
    ;
    lemma_div_is_ordered(v * drag, v * fx, fx);
    lemma_div_multiples_vanish(v, fx);
    assert(v * fx == fx * v) by (nonlinear_arith);
    vstd::arithmetic::div_mod::lemma_remainder(v * diff, fx);
    // v * diff <= fx * q + fx - 1, so v * drag >= fx * (v - q - 1) + 1.
    assert(fx * (v - q - 1) == v * fx - fx * q - fx && v * diff - q * fx == v * diff - fx * q)
        by (nonlinear_arith);
    lemma_div_is_ordered(fx * (v - q - 1), v * drag, fx);
    lemma_div_multiples_vanish(v - q - 1, fx);
}

/// Fixed-point multiply, rounding toward zero.
pub fn fx_mul(a: i64, b: i64) -> (r: i64)
    requires
        -FX_MUL_LIMIT <= a <= FX_MUL_LIMIT,
        -FX_MUL_LIMIT <= b <= FX_MUL_LIMIT,
    ensures
        r == fxmul(a as int, b as int),
{
    proof {
        assert(-9_000_000_000_000_000_000_000_000 <= (a as int) * (b as int)
            <= 9_000_000_000_000_000_000_000_000) by (nonlinear_arith)
            requires
                -FX_MUL_LIMIT <= a <= FX_MUL_LIMIT,
                -FX_MUL_LIMIT <= b <= FX_MUL_LIMIT,
        ;
    }
    let p: i128 = (a as i128) * (b as i128);
    if p >= 0 {
        proof {
            lemma_div_is_ordered(p as int, 9_000_000_000_000_000_000_000_000, FX_ONE as int);
            lemma_div_pos_is_pos(p as int, FX_ONE as int);
        }
        let q: u128 = (p as u128) / 1_000_000u128;
        q as i64
    } else {
        proof {
            lemma_div_is_ordered(-(p as int), 9_000_000_000_000_000_000_000_000, FX_ONE as int);
            lemma_div_pos_is_pos(-(p as int), FX_ONE as int);
        }
        let m: u128 = ((-p) as u128) / 1_000_000u128;
        -(m as i64)
    }
}

/// Truncating division by a positive divisor.
pub fn fx_div_i(a: i64, d: i64) -> (r: i64)
    requires
        1 <= d,
        -9_000_000_000_000_000_000 <= a,
    ensures
        r == tdiv(a as int, d as int),
{
    if a >= 0 {
        proof {
            lemma_div_nonincreasing(a as int, d as int);
            lemma_div_pos_is_pos(a as int, d as int);
        }
        ((a as u64) / (d as u64)) as i64
    } else {
        proof {
            lemma_div_nonincreasing(-(a as int), d as int);
            lemma_div_pos_is_pos(-(a as int), d as int);
        }
        let m: u64 = ((-a) as u64) / (d as u64);
        -(m as i64)
    }
}

/// `x` forced into `[lo, hi]`.
pub fn clamp_i64(x: i64, lo: i64, hi: i64) -> (r: i64)
    requires
        lo <= hi,
    ensures
        r == clamped(x as int, lo as int, hi as int),
{
    if x < lo {
        lo
    } else if x > hi {
        hi
    } else {
        x
    }
}

} // verus!
