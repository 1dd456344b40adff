//! Fixed-point conventions shared by the whole simulation.
//!
//! Every real-valued quantity (seconds, metres, metres per second, ratios in
//! `[0, 1]`, gear ratios) is stored as a whole number of millionths.

use vstd::prelude::*;
use vstd::arithmetic::div_mod::{lemma_fundamental_div_mod, lemma_fundamental_div_mod_converse_div};

verus! {

/// One unit, in millionths.
pub const MICRO: i64 = 1_000_000;

/// The value `x` limited to the range of `i64`.
pub open spec fn clamp_i64(x: int) -> int {
    if x < i64::MIN as int {
        i64::MIN as int
    } else if x > i64::MAX as int {
        i64::MAX as int
    } else {
        x
    }
}

/// The value `x` limited to the range from `low` to `high`.
pub open spec fn clamp(x: int, low: int, high: int) -> int {
    if x < low {
        low
    } else if x > high {
        high
    } else {
        x
    }
}

/// Narrows a wide intermediate result to `i64`, saturating at the bounds.
pub fn saturate(x: i128) -> (r: i64)
    ensures
        r as int == clamp_i64(x as int),
{
    if x < i64::MIN as i128 {
        i64::MIN
    } else if x > i64::MAX as i128 {
        i64::MAX
    } else {
        x as i64
    }
}

/// Division rounding toward negative infinity, which is what `/` means in
/// contracts when the divisor is positive.
pub fn floor_div(n: i128, d: i128) -> (q: i128)
    requires
        d > 0,
    ensures
        q as int == (n as int) / (d as int),
{
    if n >= 0 {
        n / d
    } else {
        let m: i128 = -(n + 1);
        let below: i128 = m / d;
        proof {
            let r = (m as int) % (d as int);
            lemma_fundamental_div_mod(m as int, d as int);
            assert((d as int) * (below as int) == (below as int) * (d as int)) by (nonlinear_arith);
            assert((-(below as int) - 1) * (d as int) == -((below as int) * (d as int)) - (d as int))
                by (nonlinear_arith);
            lemma_fundamental_div_mod_converse_div(
                n as int,
                d as int,
                -(below as int) - 1,
                (d as int) - r - 1,
            );
        }
        -below - 1
    }
}

} // verus!
