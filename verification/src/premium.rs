//! The endorsement calculator's shared core: from a weighted expected price
//! and a panel of per-trial simulated revenues to guarantee, premium, subsidy
//! and liability. Both pricing models instantiate this pipeline; they differ
//! only in how the weighted prices are formed.

#![allow(unused_imports)]
use vstd::prelude::*;
use vstd::arithmetic::mul::*;

use crate::base_types::Endorsement;
use crate::base_types::EndorsementModel;
use crate::math::lemma_abs_mul_le;
use crate::math::lemma_round_div_abs_le;
use crate::math::lemma_round_div_monotone;
use crate::math::lemma_round_div_nonneg;
use crate::math::mul_div_round;
use crate::math::round_div;

verus! {

/// One trial's loss: the shortfall of its simulated revenue below the
/// guarantee, floored at zero.
pub open spec fn spec_loss(guarantee: int, revenue: int) -> int {
    vstd::math::max(0, guarantee - revenue)
}

/// Total loss over a panel of per-trial simulated revenues.
pub open spec fn spec_total_loss(revenues: Seq<int>, guarantee: int) -> int
    decreases revenues.len(),
{
    if revenues.len() == 0 {
        0
    } else {
        spec_total_loss(revenues.drop_last(), guarantee) + spec_loss(guarantee, revenues.last())
    }
}

/// Expected revenue amount: weighted expected price (scale 10^8) times
/// production (scale 10^4), divided by 100 and rounded to whole units.
pub open spec fn spec_expected_revenue(weighted8: int, production: int) -> int {
    round_div(weighted8 * production, 100_000_000_000_000)
}

/// Revenue guarantee: expected revenue times the coverage level
/// (scale 10^4), rounded to whole units.
pub open spec fn spec_revenue_guarantee(expected_revenue: int, level: int) -> int {
    round_div(expected_revenue * level, 10000)
}

/// One trial's simulated revenue: the trial's weighted simulated price
/// (scale 10^8) times its effective production (scale 10^8), divided by 100
/// and rounded to whole units.
pub open spec fn spec_simulated_revenue(weighted8: int, effective8: int) -> int {
    round_div(weighted8 * effective8, 1_000_000_000_000_000_000)
}

/// Base rate at scale 10^8: the greater of the premium floor
/// `production * 0.02 / 100` and the average simulated loss
/// `total_loss / 5000`.
pub open spec fn spec_base_rate(total_loss: int, production: int) -> int {
    vstd::math::max(2 * production, 20000 * total_loss)
}

/// Preliminary total premium: base rate (scale 10^8) times protection factor
/// (scale 10^4), rounded to whole units.
pub open spec fn spec_preliminary_premium(base8: int, protection: int) -> int {
    round_div(base8 * protection, 1_000_000_000_000)
}

/// Total (gross) premium: preliminary premium times loading factor
/// (scale 10^4), rounded to whole units.
pub open spec fn spec_gross_premium(preliminary: int, loading: int) -> int {
    round_div(preliminary * loading, 10000)
}

/// Subsidy amount: gross premium times subsidy rate (scale 10^4), rounded to
/// whole units.
pub open spec fn spec_subsidy_amount(gross: int, rate: int) -> int {
    round_div(gross * rate, 10000)
}

/// Net (producer) premium: gross premium less subsidy, never below one whole
/// internal unit.
pub open spec fn spec_net_premium(gross: int, subsidy: int) -> int {
    vstd::math::max(1, gross - subsidy)
}

/// The endorsement assembled from an already-computed guarantee and total
/// loss.
pub open spec fn premium_model(
    weighted8: int,
    guarantee: int,
    total_loss: int,
    production: int,
    protection: int,
    loading: int,
    level: int,
    rate: int,
) -> EndorsementModel {
    let base8 = spec_base_rate(total_loss, production);
    let preliminary = spec_preliminary_premium(base8, protection);
    let gross = spec_gross_premium(preliminary, loading);
    let subsidy = spec_subsidy_amount(gross, rate);
    EndorsementModel {
        net_premium: spec_net_premium(gross, subsidy),
        subsidy: subsidy,
        gross_premium: gross,
        protected_price: weighted8 * level,
        level: level,
        revenue_guarantee: guarantee,
        liability: guarantee * protection,
    }
}

/// The full calculator pipeline: from a weighted expected price and the
/// panel of per-trial simulated revenues to the finished endorsement.
pub open spec fn endorsement_model(
    weighted8: int,
    revenues: Seq<int>,
    production: int,
    protection: int,
    loading: int,
    level: int,
    rate: int,
) -> EndorsementModel {
    let expected = spec_expected_revenue(weighted8, production);
    let guarantee = spec_revenue_guarantee(expected, level);
    premium_model(
        weighted8,
        guarantee,
        spec_total_loss(revenues, guarantee),
        production,
        protection,
        loading,
        level,
        rate,
    )
}

/// Appending a trial adds exactly that trial's loss.
pub proof fn lemma_total_loss_push(revenues: Seq<int>, guarantee: int, revenue: int)
    ensures
        spec_total_loss(revenues.push(revenue), guarantee) == spec_total_loss(
            revenues,
            guarantee,
        ) + spec_loss(guarantee, revenue),
{
    assert(revenues.push(revenue).drop_last() =~= revenues);
}

/// The total loss is monotone in the guarantee.
pub proof fn lemma_total_loss_monotone(revenues: Seq<int>, guarantee1: int, guarantee2: int)
    requires
        guarantee1 <= guarantee2,
    ensures
        spec_total_loss(revenues, guarantee1) <= spec_total_loss(revenues, guarantee2),
    decreases revenues.len(),
{
    if revenues.len() > 0 {
        lemma_total_loss_monotone(revenues.drop_last(), guarantee1, guarantee2);
    }
}

/// A panel whose every trial earns at least the guarantee loses nothing.
pub proof fn lemma_total_loss_zero(revenues: Seq<int>, guarantee: int)
    requires
        forall|i: int| 0 <= i < revenues.len() ==> revenues[i] >= guarantee,
    ensures
        spec_total_loss(revenues, guarantee) == 0,
    decreases revenues.len(),
{
    if revenues.len() > 0 {
        lemma_total_loss_zero(revenues.drop_last(), guarantee);
    }
}

/// Floor enforcement: the base rate the premium is computed from is never
/// below the premium floor `production * 0.02 / 100` (both at scale 10^8).
pub proof fn lemma_base_rate_floor(total_loss: int, production: int)
    ensures
        spec_base_rate(total_loss, production) >= 2 * production,
{
}

/// Conservation with floor: in every endorsement the net premium is the
/// gross premium less the subsidy, floored at one whole internal unit.
pub proof fn lemma_net_premium_conservation(
    weighted8: int,
    revenues: Seq<int>,
    production: int,
    protection: int,
    loading: int,
    level: int,
    rate: int,
)
    ensures
        ({
            let e = endorsement_model(
                weighted8,
                revenues,
                production,
                protection,
                loading,
                level,
                rate,
            );
            e.net_premium == vstd::math::max(1, e.gross_premium - e.subsidy)
        }),
{
}

/// Monotonicity: for a fixed simulation panel, the revenue guarantee and the
/// gross premium are non-decreasing in the coverage level, provided prices,
/// production and the multiplying factors are nonnegative.
pub proof fn lemma_monotone_in_level(
    weighted8: int,
    revenues: Seq<int>,
    production: int,
    protection: int,
    loading: int,
    level1: int,
    level2: int,
    rate1: int,
    rate2: int,
)
    requires
        weighted8 >= 0,
        production >= 0,
        protection >= 0,
        loading >= 0,
        0 <= level1 <= level2,
    ensures
        endorsement_model(weighted8, revenues, production, protection, loading, level1, rate1)
            .revenue_guarantee <= endorsement_model(
            weighted8,
            revenues,
            production,
            protection,
            loading,
            level2,
            rate2,
        ).revenue_guarantee,
        endorsement_model(weighted8, revenues, production, protection, loading, level1, rate1)
            .gross_premium <= endorsement_model(
            weighted8,
            revenues,
            production,
            protection,
            loading,
            level2,
            rate2,
        ).gross_premium,
{
    let expected = spec_expected_revenue(weighted8, production);
    lemma_mul_nonnegative(weighted8, production);
    lemma_round_div_nonneg(weighted8 * production, 100_000_000_000_000);
    lemma_mul_left_inequality_or_zero(expected, level1, level2);
    lemma_round_div_monotone(expected * level1, expected * level2, 10000);
    let guarantee1 = spec_revenue_guarantee(expected, level1);
    let guarantee2 = spec_revenue_guarantee(expected, level2);
    lemma_total_loss_monotone(revenues, guarantee1, guarantee2);
    let base1 = spec_base_rate(spec_total_loss(revenues, guarantee1), production);
    let base2 = spec_base_rate(spec_total_loss(revenues, guarantee2), production);
    lemma_mul_inequality(base1, base2, protection);
    lemma_round_div_monotone(base1 * protection, base2 * protection, 1_000_000_000_000);
    let preliminary1 = spec_preliminary_premium(base1, protection);
    let preliminary2 = spec_preliminary_premium(base2, protection);
    lemma_mul_inequality(preliminary1, preliminary2, loading);
    lemma_round_div_monotone(preliminary1 * loading, preliminary2 * loading, 10000);
}

/// `x * y1 <= x * y2` for nonnegative `x` and `y1 <= y2`.
proof fn lemma_mul_left_inequality_or_zero(x: int, y1: int, y2: int)
    requires
        x >= 0,
        y1 <= y2,
    ensures
        x * y1 <= x * y2,
{
    if x > 0 {
        lemma_mul_left_inequality(x, y1, y2);
    } else {
        assert(x * y1 == 0) by (nonlinear_arith)
            requires
                x == 0,
        ;
        assert(x * y2 == 0) by (nonlinear_arith)
            requires
                x == 0,
        ;
    }
}

/// Degenerate panel: when every trial's simulated revenue reaches the
/// guarantee, the premium comes from the floor alone.
pub proof fn lemma_degenerate_premium(
    weighted8: int,
    revenues: Seq<int>,
    production: int,
    protection: int,
    loading: int,
    level: int,
    rate: int,
)
    requires
        forall|i: int| 0 <= i < revenues.len() ==> revenues[i] >= spec_revenue_guarantee(
            spec_expected_revenue(weighted8, production),
            level,
        ),
        production >= 0,
    ensures
        endorsement_model(weighted8, revenues, production, protection, loading, level, rate)
            .gross_premium == spec_gross_premium(
            spec_preliminary_premium(2 * production, protection),
            loading,
        ),
{
    let expected = spec_expected_revenue(weighted8, production);
    let guarantee = spec_revenue_guarantee(expected, level);
    lemma_total_loss_zero(revenues, guarantee);
    assert(spec_base_rate(0, production) == 2 * production);
}

/// Guarantee and expected revenue, computed together. Returns
/// `(expected_revenue, guarantee)`.
pub(crate) fn revenue_guarantee_parts(weighted8: i128, production: i64, level: i64) -> (r: (
    i128,
    i128,
))
    requires
        -400_000_000_000_000 <= weighted8 <= 400_000_000_000_000,
        -10_000_000_000_000 <= production <= 10_000_000_000_000,
        -100_000 <= level <= 100_000,
    ensures
        r.0 == spec_expected_revenue(weighted8 as int, production as int),
        r.1 == spec_revenue_guarantee(r.0 as int, level as int),
        -40_000_000_000_000 <= r.0 <= 40_000_000_000_000,
        -400_000_000_000_000 <= r.1 <= 400_000_000_000_000,
{
    proof {
        lemma_abs_mul_le(
            weighted8 as int,
            production as int,
            400_000_000_000_000,
            10_000_000_000_000,
        );
    }
    let expected = mul_div_round(weighted8, production as i128, 100_000_000_000_000);
    proof {
        lemma_round_div_abs_le(
            weighted8 as int * production as int,
            100_000_000_000_000,
            40_000_000_000_000,
        );
        lemma_abs_mul_le(expected as int, level as int, 40_000_000_000_000, 100_000);
    }
    let guarantee = mul_div_round(expected, level as i128, 10000);
    proof {
        lemma_round_div_abs_le(expected as int * level as int, 10000, 400_000_000_000_000);
    }
    (expected, guarantee)
}

/// Assembles the endorsement from the already-aggregated total loss.
pub(crate) fn assemble_endorsement(
    weighted8: i128,
    guarantee: i128,
    total_loss: i128,
    production: i64,
    protection: i64,
    loading: i64,
    level: i64,
    rate: i64,
) -> (e: Endorsement)
    requires
        -400_000_000_000_000 <= weighted8 <= 400_000_000_000_000,
        -400_000_000_000_000 <= guarantee <= 400_000_000_000_000,
        -1_000_000_000_000_000_000_000_000 <= total_loss <= 1_000_000_000_000_000_000_000_000,
        -10_000_000_000_000 <= production <= 10_000_000_000_000,
        -100_000 <= protection <= 100_000,
        -100_000 <= loading <= 100_000,
        -100_000 <= level <= 100_000,
        -100_000 <= rate <= 100_000,
    ensures
        e@ == premium_model(
            weighted8 as int,
            guarantee as int,
            total_loss as int,
            production as int,
            protection as int,
            loading as int,
            level as int,
            rate as int,
        ),
{
    let floor8: i128 = 2 * (production as i128);
    let average8: i128 = 20000 * total_loss;
    let base8: i128 = if floor8 >= average8 {
        floor8
    } else {
        average8
    };
    proof {
        lemma_abs_mul_le(
            base8 as int,
            protection as int,
            20_000_000_000_000_000_000_000_000_000,
            100_000,
        );
    }
    let preliminary = mul_div_round(base8, protection as i128, 1_000_000_000_000);
    proof {
        lemma_round_div_abs_le(
            base8 as int * protection as int,
            1_000_000_000_000,
            2_000_000_000_000_000_000_000,
        );
        lemma_abs_mul_le(preliminary as int, loading as int, 2_000_000_000_000_000_000_000, 100_000);
    }
    let gross = mul_div_round(preliminary, loading as i128, 10000);
    proof {
        lemma_round_div_abs_le(
            preliminary as int * loading as int,
            10000,
            20_000_000_000_000_000_000_000_000,
        );
        lemma_abs_mul_le(gross as int, rate as int, 20_000_000_000_000_000_000_000_000, 100_000);
    }
    let subsidy = mul_div_round(gross, rate as i128, 10000);
    proof {
        lemma_round_div_abs_le(
            gross as int * rate as int,
            10000,
            200_000_000_000_000_000_000_000_000_000,
        );
        lemma_abs_mul_le(weighted8 as int, level as int, 400_000_000_000_000, 100_000);
        lemma_abs_mul_le(guarantee as int, protection as int, 400_000_000_000_000, 100_000);
    }
    let difference = gross - subsidy;
    let net = if difference >= 1 {
        difference
    } else {
        1
    };
    Endorsement {
        net_premium: net,
        subsidy: subsidy,
        gross_premium: gross,
        protected_price: weighted8 * (level as i128),
        level: level,
        revenue_guarantee: guarantee,
        liability: guarantee * (protection as i128),
    }
}

} // verus!
