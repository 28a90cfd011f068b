//! Math primitives: the fixed-point rounding rule shared by every stage of
//! the pipeline, and the regulator-defined subsidy-rate table.

#![allow(unused_imports)]
use vstd::prelude::*;
use vstd::arithmetic::div_mod::*;

verus! {

/// Largest numerator magnitude the executable rounding division accepts;
/// keeps `2 * |a| + b` inside `i128`.
pub const ROUND_NUM_LIMIT: i128 = 60_000_000_000_000_000_000_000_000_000_000_000_000;

/// Largest denominator the executable rounding division accepts.
pub const ROUND_DEN_LIMIT: i128 = 2_000_000_000_000_000_000;

/// The quotient `a / b` rounded half away from zero to the nearest integer,
/// for `b > 0`. This is the single midpoint rule used everywhere in the
/// product: `round_div(5, 10) == 1`, `round_div(-5, 10) == -1`,
/// `round_div(4, 10) == 0`.
pub open spec fn round_div(a: int, b: int) -> int
    recommends
        b > 0,
{
    if a >= 0 {
        (2 * a + b) / (2 * b)
    } else {
        -((2 * (-a) + b) / (2 * b))
    }
}

/// Rounding an exact multiple of the denominator changes nothing.
pub proof fn lemma_round_div_exact(k: int, b: int)
    requires
        b > 0,
    ensures
        round_div(k * b, b) == k,
{
    if k >= 0 {
        assert(k * b >= 0) by (nonlinear_arith)
            requires
                k >= 0,
                b > 0,
        ;
        assert(2 * (k * b) + b == b * (2 * k + 1)) by (nonlinear_arith);
        assert(2 * b == b * 2) by (nonlinear_arith);
        lemma_div_multiples_vanish_quotient(b, 2 * k + 1, 2);
        assert((2 * k + 1) / 2 == k);
    } else {
        assert(k * b < 0) by (nonlinear_arith)
            requires
                k < 0,
                b > 0,
        ;
        assert(2 * (-(k * b)) + b == b * (2 * (-k) + 1)) by (nonlinear_arith);
        assert(2 * b == b * 2) by (nonlinear_arith);
        lemma_div_multiples_vanish_quotient(b, 2 * (-k) + 1, 2);
        assert((2 * (-k) + 1) / 2 == -k);
    }
}

/// The rounded quotient sits within half a denominator of the exact quotient:
/// `2*a - b <= 2*b*round_div(a, b) <= 2*a + b`.
pub proof fn lemma_round_div_bounds(a: int, b: int)
    requires
        b > 0,
    ensures
        2 * a - b <= 2 * b * round_div(a, b) <= 2 * a + b,
{
    if a >= 0 {
        let q = (2 * a + b) / (2 * b);
        lemma_fundamental_div_mod(2 * a + b, 2 * b);
        lemma_mod_division_less_than_divisor(2 * a + b, 2 * b);
        assert(2 * b * q == 2 * a + b - ((2 * a + b) % (2 * b)));
    } else {
        let q = (2 * (-a) + b) / (2 * b);
        lemma_fundamental_div_mod(2 * (-a) + b, 2 * b);
        lemma_mod_division_less_than_divisor(2 * (-a) + b, 2 * b);
        assert(2 * b * q == 2 * (-a) + b - ((2 * (-a) + b) % (2 * b)));
        assert(2 * b * round_div(a, b) == -(2 * b * q)) by (nonlinear_arith)
            requires
                round_div(a, b) == -q,
        ;
    }
}

/// If `|a| <= m * b` then `|round_div(a, b)| <= m`.
pub proof fn lemma_round_div_abs_le(a: int, b: int, m: int)
    requires
        b > 0,
        0 <= m,
        -(m * b) <= a <= m * b,
    ensures
        -m <= round_div(a, b) <= m,
{
    lemma_round_div_bounds(a, b);
    let q = round_div(a, b);
    assert(q <= m) by (nonlinear_arith)
        requires
            b > 0,
            2 * b * q <= 2 * a + b,
            a <= m * b,
    ;
    assert(-m <= q) by (nonlinear_arith)
        requires
            b > 0,
            2 * a - b <= 2 * b * q,
            -(m * b) <= a,
    ;
}

/// Rounding keeps the sign of a nonnegative numerator.
pub proof fn lemma_round_div_nonneg(a: int, b: int)
    requires
        b > 0,
        a >= 0,
    ensures
        round_div(a, b) >= 0,
{
    lemma_div_pos_is_pos(2 * a + b, 2 * b);
}

/// Rounding is monotone in the numerator.
pub proof fn lemma_round_div_monotone(a1: int, a2: int, b: int)
    requires
        b > 0,
        a1 <= a2,
    ensures
        round_div(a1, b) <= round_div(a2, b),
{
    if a1 >= 0 {
        lemma_div_is_ordered(2 * a1 + b, 2 * a2 + b, 2 * b);
    } else if a2 < 0 {
        lemma_div_is_ordered(2 * (-a2) + b, 2 * (-a1) + b, 2 * b);
    } else {
        lemma_div_pos_is_pos(2 * (-a1) + b, 2 * b);
        lemma_div_pos_is_pos(2 * a2 + b, 2 * b);
    }
}

/// Scaling numerator and denominator by the same positive factor changes
/// nothing.
pub proof fn lemma_round_div_scale(a: int, b: int, k: int)
    requires
        b > 0,
        k > 0,
    ensures
        round_div(k * a, k * b) == round_div(a, b),
{
    if a >= 0 {
        assert(k * a >= 0) by (nonlinear_arith)
            requires
                k > 0,
                a >= 0,
        ;
        assert(2 * (k * a) + k * b == k * (2 * a + b)) by (nonlinear_arith);
        assert(2 * (k * b) == k * (2 * b)) by (nonlinear_arith);
        lemma_div_multiples_vanish_quotient(k, 2 * a + b, 2 * b);
    } else {
        assert(k * a < 0) by (nonlinear_arith)
            requires
                k > 0,
                a < 0,
        ;
        assert(2 * (-(k * a)) + k * b == k * (2 * (-a) + b)) by (nonlinear_arith);
        assert(2 * (k * b) == k * (2 * b)) by (nonlinear_arith);
        lemma_div_multiples_vanish_quotient(k, 2 * (-a) + b, 2 * b);
    }
}

/// Bounded product: from bounds on the factors to a bound on the product.
pub proof fn lemma_abs_mul_le(a: int, b: int, am: int, bm: int)
    by (nonlinear_arith)
    requires
        -am <= a <= am,
        -bm <= b <= bm,
        0 <= am,
        0 <= bm,
    ensures
        -(am * bm) <= a * b <= am * bm,
{
}

/// Executable round-half-away-from-zero division.
pub(crate) fn div_round(a: i128, b: i128) -> (r: i128)
    requires
        0 < b <= ROUND_DEN_LIMIT,
        -ROUND_NUM_LIMIT <= a <= ROUND_NUM_LIMIT,
    ensures
        r == round_div(a as int, b as int),
{
    if a >= 0 {
        (2 * a + b) / (2 * b)
    } else {
        -((2 * (-a) + b) / (2 * b))
    }
}

/// Executable `round_div(a * b, d)`; the caller supplies the bound that keeps
/// the product inside range.
pub(crate) fn mul_div_round(a: i128, b: i128, d: i128) -> (r: i128)
    requires
        0 < d <= ROUND_DEN_LIMIT,
        -ROUND_NUM_LIMIT <= a * b <= ROUND_NUM_LIMIT,
    ensures
        r == round_div(a as int * b as int, d as int),
{
    div_round(a * b, d)
}

/// The power of ten that separates `decimals` digits from the full
/// four-digit scale.
pub open spec fn spec_fixed_unit(decimals: int) -> int
    recommends
        0 <= decimals <= 4,
{
    if decimals == 0 {
        10000
    } else if decimals == 1 {
        1000
    } else if decimals == 2 {
        100
    } else if decimals == 3 {
        10
    } else {
        1
    }
}

/// A scale-10^4 value rounded (half away from zero) to `decimals` decimal
/// digits, still at scale 10^4.
pub open spec fn spec_round_to_fixed(v: int, decimals: int) -> int
    recommends
        0 <= decimals <= 4,
{
    spec_fixed_unit(decimals) * round_div(v, spec_fixed_unit(decimals))
}

/// Rounds a fixed-point value (scale 10^4) to `decimals` decimal digits,
/// half away from zero; the result is again at scale 10^4.
pub fn round_to_fixed(value: i64, decimals: u32) -> (r: i64)
    requires
        decimals <= 4,
        -100_000_000_000_000_000 <= value <= 100_000_000_000_000_000,
    ensures
        r == spec_round_to_fixed(value as int, decimals as int),
{
    let unit: i64 = if decimals == 0 {
        10000
    } else if decimals == 1 {
        1000
    } else if decimals == 2 {
        100
    } else if decimals == 3 {
        10
    } else {
        1
    };
    let q = div_round(value as i128, unit as i128);
    proof {
        lemma_round_div_bounds(value as int, unit as int);
        assert(-1_000_000_000_000_000_000 <= unit as int * (q as int)
            <= 1_000_000_000_000_000_000) by (nonlinear_arith)
            requires
                1 <= unit as int <= 10000,
                2 * (value as int) - unit as int <= 2 * (unit as int) * (q as int)
                    <= 2 * (value as int) + unit as int,
                -100_000_000_000_000_000 <= value as int <= 100_000_000_000_000_000,
        ;
    }
    (unit as i128 * q) as i64
}

/// The regulator-defined subsidy fraction (scale 10^4) for a coverage level
/// (scale 10^4), or `None` for a level outside the product's table.
pub open spec fn spec_subsidy_rate(level: int) -> Option<int> {
    if level == 8000 {
        Some(5500int)
    } else if level == 8500 {
        Some(4900int)
    } else if level == 9000 {
        Some(4400int)
    } else if level == 9500 {
        Some(4400int)
    } else {
        None
    }
}

/// Whether a coverage level (scale 10^4) is one of the product's standard
/// levels {0.80, 0.85, 0.90, 0.95}.
pub open spec fn is_standard_level(level: int) -> bool {
    spec_subsidy_rate(level) is Some
}

/// Coverage-level subsidy lookup.
pub fn subsidy_rate(level: i64) -> (r: Option<i64>)
    ensures
        match r {
            Some(x) => spec_subsidy_rate(level as int) == Some(x as int),
            None => !is_standard_level(level as int),
        },
{
    if level == 8000 {
        Some(5500)
    } else if level == 8500 {
        Some(4900)
    } else if level == 9000 {
        Some(4400)
    } else if level == 9500 {
        Some(4400)
    } else {
        None
    }
}

} // verus!
