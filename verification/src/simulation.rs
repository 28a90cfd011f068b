//! Per-trial simulation primitives shared by both pricing models: the
//! three-month price average and the yield-adjustment factor.

#![allow(unused_imports)]
use vstd::prelude::*;

use crate::math::div_round;
use crate::math::lemma_abs_mul_le;
use crate::math::lemma_round_div_abs_le;
use crate::math::round_div;

verus! {

/// Average of three monthly prices (scale 10^4), rounded to two decimals.
pub open spec fn spec_average_price(p1: int, p2: int, p3: int) -> int {
    100 * round_div(p1 + p2 + p3, 300)
}

/// Simulated yield-adjustment factor: the deviate scaled by the yield's
/// standard deviation and recentred on the expected yield, rounded to four
/// decimals, then divided by the expected yield and rounded again. Scale
/// 10^4; one means the simulated yield met expectation exactly.
pub open spec fn spec_yield_factor(deviate: int, expected_yield: int, deviation: int) -> int {
    let yield8 = deviate * deviation + 10000 * expected_yield;
    let yield4 = round_div(yield8, 10000);
    round_div(10000 * yield4, expected_yield)
}

/// Three-month average price, rounded to two decimals.
pub(crate) fn average_price(p1: i64, p2: i64, p3: i64) -> (r: i64)
    requires
        -4_000_000_000_000 <= p1 <= 4_000_000_000_000,
        -4_000_000_000_000 <= p2 <= 4_000_000_000_000,
        -4_000_000_000_000 <= p3 <= 4_000_000_000_000,
    ensures
        r == spec_average_price(p1 as int, p2 as int, p3 as int),
        -4_000_000_000_000 <= r <= 4_000_000_000_000,
{
    let sum = p1 as i128 + p2 as i128 + p3 as i128;
    let q = div_round(sum, 300);
    proof {
        lemma_round_div_abs_le(sum as int, 300, 40_000_000_000);
    }
    (100 * q) as i64
}

/// Simulated yield-adjustment factor of one trial.
pub(crate) fn yield_factor(deviate: i64, expected_yield: i64, deviation: i64) -> (r: i64)
    requires
        -400_000 <= deviate <= 400_000,
        1 <= expected_yield <= 1_000_000_000,
        -4 * expected_yield <= deviation <= 4 * expected_yield,
    ensures
        r == spec_yield_factor(deviate as int, expected_yield as int, deviation as int),
        -2_000_000 <= r <= 2_000_000,
{
    let ey = expected_yield as i128;
    proof {
        lemma_abs_mul_le(deviate as int, deviation as int, 400_000, 4 * expected_yield as int);
    }
    let yield8 = (deviate as i128) * (deviation as i128) + 10000 * ey;
    let yield4 = div_round(yield8, 10000);
    proof {
        lemma_round_div_abs_le(yield8 as int, 10000, 161 * expected_yield as int + 1);
    }
    let r128 = div_round(10000 * yield4, ey);
    proof {
        lemma_round_div_abs_le(10000 * yield4 as int, expected_yield as int, 1_620_000);
    }
    r128 as i64
}

} // verus!
