//! Fixed-point arithmetic with explicit rounding rules.
//!
//! Rates, multipliers and configuration values are integers counted in
//! millionths: the value `1.0` is `SCALE`, a rate of 34 % is `340_000`.
//! Every division names its rounding rule: `trunc_div` rounds toward zero,
//! `round_div` rounds to the nearest integer with halves away from zero.

use vstd::arithmetic::div_mod::{
    lemma_fundamental_div_mod, lemma_fundamental_div_mod_converse, lemma_mod_bound,
};
use vstd::prelude::*;

verus! {

/// Number of fixed-point units in one whole.
pub const SCALE: i64 = 1_000_000;

/// Quotient of `a` by a positive `b`, rounded toward zero.
pub open spec fn trunc_div(a: int, b: int) -> int {
    if a >= 0 {
        a / b
    } else {
        -((-a) / b)
    }
}

/// Quotient of `a` by a positive `b`, rounded to the nearest integer, a half
/// going away from zero.
pub open spec fn round_div(a: int, b: int) -> int {
    if a >= 0 {
        (2 * a + b) / (2 * b)
    } else {
        -((2 * (-a) + b) / (2 * b))
    }
}

/// Whether `x` can be held in an `i64`.
pub open spec fn fits_i64(x: int) -> bool {
    i64::MIN <= x <= i64::MAX
}

/// `x` limited to the range from `lo` to `hi`.
pub open spec fn clamp(x: int, lo: int, hi: int) -> int {
    if x < lo {
        lo
    } else if x > hi {
        hi
    } else {
        x
    }
}

/// Rounding toward zero: the quotient times the divisor lies on the
/// dividend's side of zero, no farther from zero than the dividend and less
/// than one divisor short of it.
pub proof fn lemma_trunc_div_is_toward_zero(a: int, b: int)
    requires
        b > 0,
    ensures
        a >= 0 ==> a - b < trunc_div(a, b) * b <= a,
        a <= 0 ==> a <= trunc_div(a, b) * b < a + b,
        trunc_div(-a, b) == -trunc_div(a, b),
{
    if a >= 0 {
        lemma_fundamental_div_mod(a, b);
        lemma_mod_bound(a, b);
        assert((a / b) * b == b * (a / b)) by (nonlinear_arith);
    } else {
        lemma_fundamental_div_mod(-a, b);
        lemma_mod_bound(-a, b);
        assert((-((-a) / b)) * b == -(b * ((-a) / b))) by (nonlinear_arith);
    }
}

/// Rounding to the nearest: the quotient times the divisor is at most half a
/// divisor away from the dividend, and an exact half goes away from zero.
pub proof fn lemma_round_div_is_nearest(a: int, b: int)
    requires
        b > 0,
    ensures
        -b <= 2 * (round_div(a, b) * b - a) <= b,
        a >= 0 ==> 2 * (round_div(a, b) * b - a) > -b,
        a <= 0 ==> 2 * (round_div(a, b) * b - a) < b,
        round_div(-a, b) == -round_div(a, b),
{
    let n = if a >= 0 {
        a
    } else {
        -a
    };
    lemma_round_div_by_remainder(n, b);
    lemma_fundamental_div_mod(n, b);
    lemma_mod_bound(n, b);
    let q = n / b;
    let r = n % b;
    assert((q + 1) * b == b * q + b) by (nonlinear_arith);
    assert(q * b == b * q) by (nonlinear_arith);
    if a < 0 {
        assert((-(q + 1)) * b == -(b * q + b)) by (nonlinear_arith);
        assert((-q) * b == -(b * q)) by (nonlinear_arith);
    }
}

/// The share `rate` (in millionths) of `amount`, rounded toward zero.
pub open spec fn portion(amount: int, rate: int) -> int {
    trunc_div(amount * rate, SCALE as int)
}

/// A share at a rate between 0 and 1 lies between zero and the amount, on the
/// amount's side of zero.
pub proof fn lemma_portion_bounds(amount: int, rate: int)
    requires
        0 <= rate <= SCALE,
    ensures
        amount >= 0 ==> 0 <= portion(amount, rate) <= amount,
        amount <= 0 ==> amount <= portion(amount, rate) <= 0,
{
    if amount >= 0 {
        assert(0 <= amount * rate <= amount * 1_000_000) by (nonlinear_arith)
            requires
                amount >= 0,
                0 <= rate <= 1_000_000,
        ;
    } else {
        assert(0 <= (-amount) * rate <= (-amount) * 1_000_000) by (nonlinear_arith)
            requires
                amount < 0,
                0 <= rate <= 1_000_000,
        ;
        assert(-(amount * rate) == (-amount) * rate) by (nonlinear_arith);
    }
}

/// Quotient of `a` by a positive `b`, rounded toward zero.
pub fn div_trunc(a: i128, b: i128) -> (q: i128)
    requires
        b > 0,
    ensures
        q == trunc_div(a as int, b as int),
{
    a / b
}

/// For a non-negative `a`, rounding to the nearest is the whole quotient plus
/// one where twice the remainder reaches the divisor.
pub proof fn lemma_round_div_by_remainder(a: int, b: int)
    requires
        a >= 0,
        b > 0,
    ensures
        round_div(a, b) == a / b + if 2 * (a % b) >= b {
            1int
        } else {
            0int
        },
{
    let q = a / b;
    let r = a % b;
    lemma_fundamental_div_mod(a, b);
    lemma_mod_bound(a, b);
    let carry: int = if 2 * r >= b {
        1
    } else {
        0
    };
    let rest = 2 * r + b - carry * (2 * b);
    assert(2 * a + b == (q + carry) * (2 * b) + rest) by (nonlinear_arith)
        requires
            a == b * q + r,
            rest == 2 * r + b - carry * (2 * b),
    ;
    lemma_fundamental_div_mod_converse(2 * a + b, 2 * b, q + carry, rest);
}

/// Quotient of `a` by a positive `b`, rounded to the nearest integer, a half
/// going away from zero.
pub fn div_round(a: i128, b: i128) -> (q: i128)
    requires
        b > 0,
    ensures
        q == round_div(a as int, b as int),
{
    let whole = a / b;
    let rest = a % b;
    if a >= 0 {
        proof {
            lemma_round_div_by_remainder(a as int, b as int);
            lemma_fundamental_div_mod(a as int, b as int);
            lemma_mod_bound(a as int, b as int);
        }
        if rest >= b - rest {
            assert(whole < i128::MAX) by (nonlinear_arith)
                requires
                    a == b * whole + rest,
                    2 * rest >= b,
                    0 <= rest < b,
                    whole >= 0,
                    a <= i128::MAX,
            ;
            whole + 1
        } else {
            whole
        }
    } else {
        proof {
            lemma_round_div_by_remainder(-a, b as int);
            lemma_fundamental_div_mod(-a, b as int);
            lemma_mod_bound(-a, b as int);
        }
        assert(whole == -((-a) / (b as int)));
        assert(rest == -((-a) % (b as int)));
        if -rest >= b + rest {
            assert(whole > i128::MIN) by (nonlinear_arith)
                requires
                    -a == b * (-whole) + (-rest),
                    2 * (-rest) >= b,
                    0 <= -rest < b,
                    whole <= 0,
                    -a <= 0x8000_0000_0000_0000_0000_0000_0000_0000,
            ;
            whole - 1
        } else {
            whole
        }
    }
}

/// The share `rate` (in millionths) of `amount`, rounded toward zero.
pub(crate) fn portion_of(amount: i64, rate: i64) -> (share: i64)
    requires
        0 <= rate <= SCALE,
    ensures
        share == portion(amount as int, rate as int),
{
    proof {
        lemma_portion_bounds(amount as int, rate as int);
        assert(-0x8000_0000_0000_0000 * 1_000_000 <= amount * rate <= 0x8000_0000_0000_0000
            * 1_000_000) by (nonlinear_arith)
            requires
                0 <= rate <= 1_000_000,
                -0x8000_0000_0000_0000 <= amount < 0x8000_0000_0000_0000,
        ;
    }
    let wide: i128 = (amount as i128) * (rate as i128);
    let share: i128 = div_trunc(wide, SCALE as i128);
    share as i64
}

} // verus!
