//! Fixed-point conventions and overflow-free comparison helpers.
//!
//! Prices, sizes, exposures and ratio thresholds are carried as unsigned
//! integers scaled by [`SCALE`]: a stored value `v` stands for the real
//! quantity `v / SCALE`. A ratio comparison `a / b > limit` is always
//! decided in product form, `a * SCALE > limit_scaled * b`, which is exact
//! and needs no division; the helpers below compute such products in 128
//! bits so they can never overflow.

use vstd::prelude::*;

verus! {

/// Scaled integer `v` stands for the real quantity `v / SCALE`.
pub const SCALE: u64 = 10_000;

/// Basis points per whole unit: a relative deviation `d` is `d * BPS_PER_UNIT` bps.
pub const BPS_PER_UNIT: u64 = 10_000;

/// Widening multiplication; the product of two `u64` always fits in `u128`.
pub fn mul_wide(a: u64, b: u64) -> (r: u128)
    ensures
        r == a as int * b as int,
{
    proof {
        assert(a as int * b as int <= u64::MAX as int * u64::MAX as int) by (nonlinear_arith)
            requires
                a <= u64::MAX,
                b <= u64::MAX,
        ;
    }
    (a as u128) * (b as u128)
}

/// Decides `a * b > c * d` over the mathematical integers.
pub fn prod_exceeds(a: u64, b: u64, c: u64, d: u64) -> (r: bool)
    ensures
        r == (a as int * b as int > c as int * d as int),
{
    mul_wide(a, b) > mul_wide(c, d)
}

/// Decides `a * b < c * d` over the mathematical integers.
pub fn prod_below(a: u64, b: u64, c: u64, d: u64) -> (r: bool)
    ensures
        r == ((a as int * b as int) < (c as int * d as int)),
{
    mul_wide(a, b) < mul_wide(c, d)
}

/// Decides `base + a * b > limit` over the mathematical integers.
pub fn sum_prod_exceeds(base: u64, a: u64, b: u64, limit: u64) -> (r: bool)
    ensures
        r == (base as int + a as int * b as int > limit as int),
{
    let p = mul_wide(a, b);
    proof {
        assert(base as int + a as int * b as int <= u128::MAX as int) by (nonlinear_arith)
            requires
                base <= u64::MAX,
                a <= u64::MAX,
                b <= u64::MAX,
        ;
    }
    (base as u128) + p > (limit as u128)
}

/// `|a - b|` over the mathematical integers.
pub open spec fn dist(a: int, b: int) -> int {
    if a >= b {
        a - b
    } else {
        b - a
    }
}

/// `|a - b|` for scaled quantities.
pub fn abs_diff(a: u64, b: u64) -> (r: u64)
    ensures
        r == if a >= b {
            a - b
        } else {
            b - a
        },
{
    if a >= b {
        a - b
    } else {
        b - a
    }
}

/// `|a - b|` for epoch timestamps; the gap between two `i64` fits in `u64`.
pub fn abs_gap(a: i64, b: i64) -> (r: u64)
    ensures
        r == if a as int >= b as int {
            a as int - b as int
        } else {
            b as int - a as int
        },
{
    let d: i128 = (a as i128) - (b as i128);
    if d >= 0 {
        d as u64
    } else {
        (-d) as u64
    }
}

} // verus!
