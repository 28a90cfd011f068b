//! Component-model simulation engine, endorsement calculator and request
//! orchestrator, with the laws that hold of them.

#![allow(unused_imports)]
use vstd::prelude::*;
use vstd::arithmetic::mul::*;

use crate::SIMULATION_TRIALS;
use crate::base_types::Endorsement;
use crate::base_types::EndorsementModel;
use crate::base_types::Quote;
use crate::base_types::RequestError;
use crate::component_types::DailyPrice;
use crate::component_types::Draw;
use crate::component_types::PricingFactor;
use crate::component_types::SimulationModel;
use crate::component_types::SimulationValue;
use crate::math::div_round;
use crate::math::is_standard_level;
use crate::math::lemma_abs_mul_le;
use crate::math::lemma_round_div_abs_le;
use crate::math::lemma_round_div_exact;
use crate::math::lemma_round_div_monotone;
use crate::math::lemma_round_div_nonneg;
use crate::math::lemma_round_div_scale;
use crate::math::mul_div_round;
use crate::math::round_div;
use crate::math::spec_round_to_fixed;
use crate::math::spec_subsidy_rate;
use crate::math::subsidy_rate;
use crate::premium::assemble_endorsement;
use crate::premium::endorsement_model;
use crate::premium::lemma_degenerate_premium;
use crate::premium::lemma_monotone_in_level;
use crate::premium::lemma_total_loss_push;
use crate::premium::lemma_total_loss_zero;
use crate::premium::revenue_guarantee_parts;
use crate::premium::spec_expected_revenue;
use crate::premium::spec_gross_premium;
use crate::premium::spec_loss;
use crate::premium::spec_preliminary_premium;
use crate::premium::spec_revenue_guarantee;
use crate::premium::spec_simulated_revenue;
use crate::premium::spec_total_loss;
use crate::simulation::average_price;
use crate::simulation::spec_average_price;
use crate::simulation::spec_yield_factor;
use crate::simulation::yield_factor;

verus! {

/// A monthly commodity price converted to a component price: the price less
/// the make allowance, times the manufacturing yield, rounded to four
/// decimals. Scale 10^4 throughout.
pub open spec fn spec_component_price(price: int, allowance: int, manufacturing_yield: int) -> int {
    round_div((price - allowance) * manufacturing_yield, 10000)
}

/// A monthly protein price: a casein term plus a butterfat cross-adjustment
/// term, rounded to four decimals. `butterfat_month` is the same month's
/// butterfat price.
pub open spec fn spec_protein_month(cheese: int, butterfat_month: int, f: PricingFactor) -> int {
    let casein = round_div((cheese - f.cheese_allowance) * f.casein_yield, 10000);
    let cross = round_div((cheese - f.cheese_allowance) * f.butterfat_yield, 10000);
    let retained = round_div(butterfat_month * f.retention_rate, 10000);
    round_div(casein * 10000 + (cross - retained) * f.butterfat_protein_ratio, 10000)
}

/// The simulation value of one trial.
pub open spec fn spec_simulation_value(d: Draw, p: DailyPrice, f: PricingFactor) -> SimulationModel {
    let butterfat1 = spec_component_price(d.month1_butter as int, f.butter_allowance as int, f.butter_yield as int);
    let butterfat2 = spec_component_price(d.month2_butter as int, f.butter_allowance as int, f.butter_yield as int);
    let butterfat3 = spec_component_price(d.month3_butter as int, f.butter_allowance as int, f.butter_yield as int);
    SimulationModel {
        butterfat_price: spec_average_price(butterfat1, butterfat2, butterfat3),
        protein_price: spec_average_price(
            spec_protein_month(d.month1_cheese as int, butterfat1, f),
            spec_protein_month(d.month2_cheese as int, butterfat2, f),
            spec_protein_month(d.month3_cheese as int, butterfat3, f),
        ),
        other_solids_price: spec_average_price(
            spec_component_price(d.month1_dry_whey as int, f.dry_whey_allowance as int, f.dry_whey_yield as int),
            spec_component_price(d.month2_dry_whey as int, f.dry_whey_allowance as int, f.dry_whey_yield as int),
            spec_component_price(d.month3_dry_whey as int, f.dry_whey_allowance as int, f.dry_whey_yield as int),
        ),
        yield_factor: spec_yield_factor(
            d.yield_deviate as int,
            p.expected_yield as int,
            p.yield_deviation as int,
        ),
    }
}

/// The whole simulated panel.
pub open spec fn spec_panel(draws: Seq<Draw>, p: DailyPrice, f: PricingFactor) -> Seq<
    SimulationModel,
> {
    draws.map_values(|d: Draw| spec_simulation_value(d, p, f))
}

/// The models of an executable panel.
pub open spec fn models(values: Seq<SimulationValue>) -> Seq<SimulationModel> {
    values.map_values(|s: SimulationValue| s@)
}

/// Weighted expected price, scale 10^8: butterfat and protein weighted by
/// their test percentages, other solids by the fixed weight 5.7.
pub open spec fn spec_weighted_price(p: DailyPrice, q: Quote) -> int {
    p.butterfat_price * q.butterfat + p.protein_price * q.protein + p.other_solids_price * 57000
}

/// One trial's weighted simulated price, scale 10^8.
pub open spec fn spec_trial_price(s: SimulationModel, q: Quote) -> int {
    s.butterfat_price * q.butterfat + s.protein_price * q.protein + s.other_solids_price * 57000
}

/// One trial's simulated revenue.
pub open spec fn spec_trial_revenue(s: SimulationModel, q: Quote) -> int {
    spec_simulated_revenue(spec_trial_price(s, q), q.production * s.yield_factor)
}

/// The per-trial simulated revenues of a panel.
pub open spec fn spec_revenues(panel: Seq<SimulationModel>, q: Quote) -> Seq<int> {
    panel.map_values(|s: SimulationModel| spec_trial_revenue(s, q))
}

/// The endorsement of one coverage level, as a function of the request and
/// the simulated panel.
pub open spec fn spec_endorsement(
    p: DailyPrice,
    q: Quote,
    panel: Seq<SimulationModel>,
    level: int,
) -> EndorsementModel {
    endorsement_model(
        spec_weighted_price(p, q),
        spec_revenues(panel, q),
        q.production as int,
        q.protection as int,
        p.loading_factor as int,
        level,
        crate::class_endorsement::spec_rate_or_zero(level),
    )
}

/// The ordered endorsements of an "all endorsements" request.
pub open spec fn spec_all_endorsements(p: DailyPrice, q: Quote, panel: Seq<SimulationModel>) -> Seq<
    EndorsementModel,
> {
    crate::class_endorsement::spec_standard_levels().map_values(
        |level: int| spec_endorsement(p, q, panel, level),
    )
}

/// Monthly component price from a commodity price.
fn component_price(price: i64, allowance: i64, manufacturing_yield: i64) -> (r: i64)
    requires
        -1_000_000_000 <= price <= 1_000_000_000,
        -1_000_000_000 <= allowance <= 1_000_000_000,
        -100_000 <= manufacturing_yield <= 100_000,
    ensures
        r == spec_component_price(price as int, allowance as int, manufacturing_yield as int),
        -20_000_000_000 <= r <= 20_000_000_000,
{
    let difference = price as i128 - allowance as i128;
    proof {
        lemma_abs_mul_le(difference as int, manufacturing_yield as int, 2_000_000_000, 100_000);
    }
    let q = mul_div_round(difference, manufacturing_yield as i128, 10000);
    proof {
        lemma_round_div_abs_le(
            difference as int * manufacturing_yield as int,
            10000,
            20_000_000_000,
        );
    }
    q as i64
}

/// Monthly protein price.
fn protein_month(cheese: i64, butterfat_month: i64, factors: &PricingFactor) -> (r: i64)
    requires
        factors.wf(),
        -1_000_000_000 <= cheese <= 1_000_000_000,
        -20_000_000_000 <= butterfat_month <= 20_000_000_000,
    ensures
        r == spec_protein_month(cheese as int, butterfat_month as int, *factors),
        -4_000_000_000_000 <= r <= 4_000_000_000_000,
{
    let difference = cheese as i128 - factors.cheese_allowance as i128;
    proof {
        lemma_abs_mul_le(difference as int, factors.casein_yield as int, 2_000_000_000, 100_000);
        lemma_abs_mul_le(difference as int, factors.butterfat_yield as int, 2_000_000_000, 100_000);
    }
    let casein = mul_div_round(difference, factors.casein_yield as i128, 10000);
    let cross = mul_div_round(difference, factors.butterfat_yield as i128, 10000);
    proof {
        lemma_round_div_abs_le(difference as int * factors.casein_yield as int, 10000, 20_000_000_000);
        lemma_round_div_abs_le(difference as int * factors.butterfat_yield as int, 10000, 20_000_000_000);
        lemma_abs_mul_le(butterfat_month as int, factors.retention_rate as int, 20_000_000_000, 100_000);
    }
    let retained = mul_div_round(butterfat_month as i128, factors.retention_rate as i128, 10000);
    proof {
        lemma_round_div_abs_le(
            butterfat_month as int * factors.retention_rate as int,
            10000,
            200_000_000_000,
        );
        lemma_abs_mul_le(
            cross as int - retained as int,
            factors.butterfat_protein_ratio as int,
            220_000_000_000,
            100_000,
        );
    }
    let weighted8 = casein * 10000 + (cross - retained) * (factors.butterfat_protein_ratio as i128);
    let q = div_round(weighted8, 10000);
    proof {
        lemma_round_div_abs_le(weighted8 as int, 10000, 3_000_000_000_000);
    }
    q as i64
}

/// Simulation engine: one simulation value per draw, 1:1 by index.
pub fn create_simulation_values(
    draws: &Vec<Draw>,
    prices: &DailyPrice,
    factors: &PricingFactor,
) -> (r: Vec<SimulationValue>)
    requires
        prices.wf(),
        factors.wf(),
        forall|i: int| 0 <= i < draws@.len() ==> (#[trigger] draws@[i]).wf(),
    ensures
        r@.len() == draws@.len(),
        forall|i: int| 0 <= i < draws@.len() ==> (#[trigger] r@[i])@ == spec_simulation_value(
            draws@[i],
            *prices,
            *factors,
        ),
        forall|i: int| 0 <= i < draws@.len() ==> (#[trigger] r@[i]).wf(),
{
    let mut values: Vec<SimulationValue> = Vec::new();
    let n = draws.len();
    let mut idx: usize = 0;
    while idx < n
        invariant
            idx <= n,
            n == draws@.len(),
            values@.len() == idx,
            prices.wf(),
            factors.wf(),
            forall|i: int| 0 <= i < draws@.len() ==> (#[trigger] draws@[i]).wf(),
            forall|i: int|
                0 <= i < idx ==> (#[trigger] values@[i])@ == spec_simulation_value(
                    draws@[i],
                    *prices,
                    *factors,
                ),
            forall|i: int| 0 <= i < idx ==> (#[trigger] values@[i]).wf(),
        decreases n - idx,
    {
        let d = &draws[idx];
        let butterfat1 = component_price(d.month1_butter, factors.butter_allowance, factors.butter_yield);
        let butterfat2 = component_price(d.month2_butter, factors.butter_allowance, factors.butter_yield);
        let butterfat3 = component_price(d.month3_butter, factors.butter_allowance, factors.butter_yield);
        let butterfat = average_price(butterfat1, butterfat2, butterfat3);
        let other_solids = average_price(
            component_price(d.month1_dry_whey, factors.dry_whey_allowance, factors.dry_whey_yield),
            component_price(d.month2_dry_whey, factors.dry_whey_allowance, factors.dry_whey_yield),
            component_price(d.month3_dry_whey, factors.dry_whey_allowance, factors.dry_whey_yield),
        );
        let protein = average_price(
            protein_month(d.month1_cheese, butterfat1, factors),
            protein_month(d.month2_cheese, butterfat2, factors),
            protein_month(d.month3_cheese, butterfat3, factors),
        );
        let factor = yield_factor(d.yield_deviate, prices.expected_yield, prices.yield_deviation);
        values.push(
            SimulationValue {
                butterfat_price: butterfat,
                protein_price: protein,
                other_solids_price: other_solids,
                yield_factor: factor,
            },
        );
        idx = idx + 1;
    }
    values
}

/// Weighted price of a component price triple, shared by the expected and
/// the per-trial computation.
fn weighted_price(
    butterfat: i64,
    protein: i64,
    other_solids: i64,
    butterfat_test: i64,
    protein_test: i64,
) -> (r: i128)
    requires
        -10_000_000_000_000 <= butterfat <= 10_000_000_000_000,
        -10_000_000_000_000 <= protein <= 10_000_000_000_000,
        -10_000_000_000_000 <= other_solids <= 10_000_000_000_000,
        -100_000 <= butterfat_test <= 100_000,
        -100_000 <= protein_test <= 100_000,
    ensures
        r == butterfat * butterfat_test + protein * protein_test + other_solids * 57000,
        -3_000_000_000_000_000_000 <= r <= 3_000_000_000_000_000_000,
{
    proof {
        lemma_abs_mul_le(butterfat as int, butterfat_test as int, 10_000_000_000_000, 100_000);
        lemma_abs_mul_le(protein as int, protein_test as int, 10_000_000_000_000, 100_000);
    }
    (butterfat as i128) * (butterfat_test as i128) + (protein as i128) * (protein_test as i128) + (
    other_solids as i128) * 57000
}

/// Endorsement calculator: one endorsement from a simulated panel, a quote
/// and one standard coverage level.
pub fn calculate_endorsement(
    prices: &DailyPrice,
    quote: &Quote,
    coverage_level: i64,
    simulation_values: &Vec<SimulationValue>,
) -> (e: Endorsement)
    requires
        prices.wf(),
        quote.wf(),
        simulation_values@.len() == SIMULATION_TRIALS,
        forall|i: int|
            0 <= i < simulation_values@.len() ==> (#[trigger] simulation_values@[i]).wf(),
        is_standard_level(coverage_level as int),
    ensures
        e@ == spec_endorsement(
            *prices,
            *quote,
            models(simulation_values@),
            coverage_level as int,
        ),
{
    let weighted8 = weighted_price(
        prices.butterfat_price,
        prices.protein_price,
        prices.other_solids_price,
        quote.butterfat,
        quote.protein,
    );
    proof {
        lemma_abs_mul_le(prices.butterfat_price as int, quote.butterfat as int, 1_000_000_000, 100_000);
        lemma_abs_mul_le(prices.protein_price as int, quote.protein as int, 1_000_000_000, 100_000);
    }
    let parts = revenue_guarantee_parts(weighted8, quote.production, coverage_level);
    let guarantee = parts.1;
    let mut total: i128 = 0;
    let n = simulation_values.len();
    let mut idx: usize = 0;
    while idx < n
        invariant
            idx <= n,
            n == simulation_values@.len(),
            n == SIMULATION_TRIALS,
            quote.wf(),
            forall|i: int|
                0 <= i < simulation_values@.len() ==> (#[trigger] simulation_values@[i]).wf(),
            -400_000_000_000_000 <= guarantee <= 400_000_000_000_000,
            total == spec_total_loss(
                spec_revenues(models(simulation_values@.subrange(0, idx as int)), *quote),
                guarantee as int,
            ),
            0 <= total <= idx * 100_000_000_000_000_000_000,
        decreases n - idx,
    {
        let s = &simulation_values[idx];
        let trial8 = weighted_price(
            s.butterfat_price,
            s.protein_price,
            s.other_solids_price,
            quote.butterfat,
            quote.protein,
        );
        proof {
            lemma_abs_mul_le(quote.production as int, s.yield_factor as int, 10_000_000_000_000, 2_000_000);
        }
        let effective8 = (quote.production as i128) * (s.yield_factor as i128);
        proof {
            lemma_abs_mul_le(
                trial8 as int,
                effective8 as int,
                3_000_000_000_000_000_000,
                20_000_000_000_000_000_000,
            );
        }
        let revenue = mul_div_round(trial8, effective8, 1_000_000_000_000_000_000);
        proof {
            lemma_round_div_abs_le(
                trial8 as int * effective8 as int,
                1_000_000_000_000_000_000,
                60_000_000_000_000_000_000,
            );
        }
        let difference = guarantee - revenue;
        let loss: i128 = if difference > 0 {
            difference
        } else {
            0
        };
        proof {
            let ghost prefix = spec_revenues(
                models(simulation_values@.subrange(0, idx as int)),
                *quote,
            );
            let ghost s_model = simulation_values@[idx as int]@;
            assert(models(simulation_values@.subrange(0, idx as int + 1)) =~= models(
                simulation_values@.subrange(0, idx as int),
            ).push(s_model));
            assert(spec_revenues(
                models(simulation_values@.subrange(0, idx as int + 1)),
                *quote,
            ) =~= prefix.push(spec_trial_revenue(s_model, *quote)));
            lemma_total_loss_push(prefix, guarantee as int, spec_trial_revenue(s_model, *quote));
            assert(revenue == spec_trial_revenue(s_model, *quote));
            assert(loss == spec_loss(guarantee as int, spec_trial_revenue(s_model, *quote)));
        }
        total = total + loss;
        idx = idx + 1;
    }
    proof {
        assert(simulation_values@.subrange(0, n as int) =~= simulation_values@);
    }
    let rate_option = subsidy_rate(coverage_level);
    let rate: i64 = match rate_option {
        Some(r) => r,
        None => {
            proof {
                assert(false);
            }
            0
        },
    };
    assemble_endorsement(
        weighted8,
        guarantee,
        total,
        quote.production,
        quote.protection,
        prices.loading_factor,
        coverage_level,
        rate,
    )
}

/// Request orchestrator, "all endorsements" shape: validates the panel
/// length, simulates once, then calculates the four standard levels in
/// order.
pub fn get_all_endorsements(
    prices: DailyPrice,
    quote: Quote,
    draws: Vec<Draw>,
    factors: PricingFactor,
) -> (r: Result<Vec<Endorsement>, RequestError>)
    requires
        prices.wf(),
        quote.wf(),
        factors.wf(),
        forall|i: int| 0 <= i < draws@.len() ==> (#[trigger] draws@[i]).wf(),
    ensures
        r is Ok <==> draws@.len() == SIMULATION_TRIALS,
        r matches Ok(endorsements) ==> {
            &&& endorsements@.len() == 4
            &&& forall|k: int|
                0 <= k < 4 ==> (#[trigger] endorsements@[k])@ == spec_all_endorsements(
                    prices,
                    quote,
                    spec_panel(draws@, prices, factors),
                )[k]
        },
        r matches Err(err) ==> err == RequestError::PanelLength,
{
    if draws.len() != SIMULATION_TRIALS {
        return Err(RequestError::PanelLength);
    }
    let values = create_simulation_values(&draws, &prices, &factors);
    proof {
        assert(models(values@) =~= spec_panel(draws@, prices, factors));
    }
    let mut endorsements: Vec<Endorsement> = Vec::new();
    endorsements.push(calculate_endorsement(&prices, &quote, 8000, &values));
    endorsements.push(calculate_endorsement(&prices, &quote, 8500, &values));
    endorsements.push(calculate_endorsement(&prices, &quote, 9000, &values));
    endorsements.push(calculate_endorsement(&prices, &quote, 9500, &values));
    Ok(endorsements)
}

/// Request orchestrator, single-endorsement shape: validates the panel
/// length and the coverage level, simulates once, then calculates the one
/// requested level.
pub fn get_endorsement(
    prices: DailyPrice,
    quote: Quote,
    draws: Vec<Draw>,
    factors: PricingFactor,
    coverage_level: i64,
) -> (r: Result<Endorsement, RequestError>)
    requires
        prices.wf(),
        quote.wf(),
        factors.wf(),
        forall|i: int| 0 <= i < draws@.len() ==> (#[trigger] draws@[i]).wf(),
    ensures
        r is Ok <==> (draws@.len() == SIMULATION_TRIALS && is_standard_level(
            coverage_level as int,
        )),
        r matches Ok(endorsement) ==> endorsement@ == spec_endorsement(
            prices,
            quote,
            spec_panel(draws@, prices, factors),
            coverage_level as int,
        ),
        r matches Err(err) ==> (err == RequestError::PanelLength <==> draws@.len()
            != SIMULATION_TRIALS),
        r matches Err(err) ==> (err == RequestError::UnknownCoverageLevel <==> (draws@.len()
            == SIMULATION_TRIALS && !is_standard_level(coverage_level as int))),
{
    if draws.len() != SIMULATION_TRIALS {
        return Err(RequestError::PanelLength);
    }
    if subsidy_rate(coverage_level).is_none() {
        return Err(RequestError::UnknownCoverageLevel);
    }
    let values = create_simulation_values(&draws, &prices, &factors);
    proof {
        assert(models(values@) =~= spec_panel(draws@, prices, factors));
    }
    Ok(calculate_endorsement(&prices, &quote, coverage_level, &values))
}

/// Consistency law: the k-th element of an "all endorsements" result is
/// exactly the single-endorsement result at the k-th standard level, for the
/// same prices, quote, factors and panel.
pub proof fn lemma_all_matches_single(
    p: DailyPrice,
    q: Quote,
    panel: Seq<SimulationModel>,
    k: int,
)
    requires
        0 <= k < 4,
    ensures
        spec_all_endorsements(p, q, panel)[k] == spec_endorsement(
            p,
            q,
            panel,
            crate::class_endorsement::spec_standard_levels()[k],
        ),
{
}

/// Determinism law: any two results that meet the public contract for the
/// same inputs are equal; the endorsement is a function of the request
/// alone.
pub proof fn lemma_deterministic(
    p: DailyPrice,
    q: Quote,
    panel: Seq<SimulationModel>,
    level: int,
    e1: EndorsementModel,
    e2: EndorsementModel,
)
    requires
        e1 == spec_endorsement(p, q, panel, level),
        e2 == spec_endorsement(p, q, panel, level),
    ensures
        e1 == e2,
{
}

/// Monotonicity law: for a fixed simulated panel, the revenue guarantee and
/// the gross premium are non-decreasing in the coverage level. Requires the
/// prices, tests and factors to be nonnegative; a negative expected price,
/// for instance, reverses the guarantee's direction.
pub proof fn lemma_monotone(
    p: DailyPrice,
    q: Quote,
    panel: Seq<SimulationModel>,
    level1: int,
    level2: int,
)
    requires
        p.butterfat_price >= 0,
        p.protein_price >= 0,
        p.other_solids_price >= 0,
        q.butterfat >= 0,
        q.protein >= 0,
        q.production >= 0,
        q.protection >= 0,
        p.loading_factor >= 0,
        0 <= level1 <= level2,
    ensures
        spec_endorsement(p, q, panel, level1).revenue_guarantee <= spec_endorsement(
            p,
            q,
            panel,
            level2,
        ).revenue_guarantee,
        spec_endorsement(p, q, panel, level1).gross_premium <= spec_endorsement(
            p,
            q,
            panel,
            level2,
        ).gross_premium,
{
    lemma_mul_nonnegative(p.butterfat_price as int, q.butterfat as int);
    lemma_mul_nonnegative(p.protein_price as int, q.protein as int);
    lemma_monotone_in_level(
        spec_weighted_price(p, q),
        spec_revenues(panel, q),
        q.production as int,
        q.protection as int,
        p.loading_factor as int,
        level1,
        level2,
        crate::class_endorsement::spec_rate_or_zero(level1),
        crate::class_endorsement::spec_rate_or_zero(level2),
    );
}

/// Degenerate-draw law: a trial whose monthly commodity prices are all
/// equal and whose yield deviate is zero simulates to the corresponding
/// component prices rounded to two decimals, with a yield-adjustment factor
/// of exactly one.
pub proof fn lemma_degenerate_draw(d: Draw, p: DailyPrice, f: PricingFactor)
    requires
        p.wf(),
        d.yield_deviate == 0,
        d.month1_butter == d.month2_butter,
        d.month2_butter == d.month3_butter,
        d.month1_cheese == d.month2_cheese,
        d.month2_cheese == d.month3_cheese,
        d.month1_dry_whey == d.month2_dry_whey,
        d.month2_dry_whey == d.month3_dry_whey,
    ensures
        spec_simulation_value(d, p, f).butterfat_price == spec_round_to_fixed(
            spec_component_price(d.month1_butter as int, f.butter_allowance as int, f.butter_yield as int),
            2,
        ),
        spec_simulation_value(d, p, f).other_solids_price == spec_round_to_fixed(
            spec_component_price(
                d.month1_dry_whey as int,
                f.dry_whey_allowance as int,
                f.dry_whey_yield as int,
            ),
            2,
        ),
        spec_simulation_value(d, p, f).protein_price == spec_round_to_fixed(
            spec_protein_month(
                d.month1_cheese as int,
                spec_component_price(d.month1_butter as int, f.butter_allowance as int, f.butter_yield as int),
                f,
            ),
            2,
        ),
        spec_simulation_value(d, p, f).yield_factor == 10000,
{
    let ey = p.expected_yield as int;
    lemma_round_div_exact(ey, 10000);
    assert(round_div(0 * p.yield_deviation + 10000 * ey, 10000) == ey);
    lemma_round_div_exact(10000, ey);
    assert(spec_yield_factor(0, ey, p.yield_deviation as int) == 10000);
    let butterfat1 = spec_component_price(d.month1_butter as int, f.butter_allowance as int, f.butter_yield as int);
    lemma_round_div_scale(butterfat1, 100, 3);
    assert(3 * butterfat1 == butterfat1 + butterfat1 + butterfat1);
    let solids1 = spec_component_price(
        d.month1_dry_whey as int,
        f.dry_whey_allowance as int,
        f.dry_whey_yield as int,
    );
    lemma_round_div_scale(solids1, 100, 3);
    assert(3 * solids1 == solids1 + solids1 + solids1);
    let protein1 = spec_protein_month(d.month1_cheese as int, butterfat1, f);
    lemma_round_div_scale(protein1, 100, 3);
    assert(3 * protein1 == protein1 + protein1 + protein1);
}

/// Degenerate-scenario law: when every trial's simulated component prices
/// equal the expected component prices and every yield-adjustment factor is
/// exactly one, no trial loses anything, and the premium comes from the
/// floor `production * 0.02 / 100` alone.
pub proof fn lemma_degenerate_scenario(
    p: DailyPrice,
    q: Quote,
    panel: Seq<SimulationModel>,
    level: int,
)
    requires
        p.butterfat_price >= 0,
        p.protein_price >= 0,
        p.other_solids_price >= 0,
        q.butterfat >= 0,
        q.protein >= 0,
        q.production >= 0,
        0 <= level <= 10000,
        forall|i: int| 0 <= i < panel.len() ==> (#[trigger] panel[i]).butterfat_price
            == p.butterfat_price && panel[i].protein_price == p.protein_price
            && panel[i].other_solids_price == p.other_solids_price && panel[i].yield_factor
            == 10000,
    ensures
        spec_total_loss(
            spec_revenues(panel, q),
            spec_revenue_guarantee(
                spec_expected_revenue(spec_weighted_price(p, q), q.production as int),
                level,
            ),
        ) == 0,
        spec_endorsement(p, q, panel, level).gross_premium == spec_gross_premium(
            spec_preliminary_premium(2 * q.production, q.protection as int),
            p.loading_factor as int,
        ),
{
    let weighted8 = spec_weighted_price(p, q);
    let expected = spec_expected_revenue(weighted8, q.production as int);
    let guarantee = spec_revenue_guarantee(expected, level);
    lemma_mul_nonnegative(p.butterfat_price as int, q.butterfat as int);
    lemma_mul_nonnegative(p.protein_price as int, q.protein as int);
    lemma_mul_nonnegative(weighted8, q.production as int);
    lemma_round_div_nonneg(weighted8 * q.production, 100_000_000_000_000);
    lemma_mul_left_inequality_nonneg(expected, level, 10000);
    lemma_round_div_monotone(expected * level, expected * 10000, 10000);
    lemma_round_div_exact(expected, 10000);
    assert(guarantee <= expected);
    assert forall|i: int| 0 <= i < spec_revenues(panel, q).len() implies #[trigger] spec_revenues(
        panel,
        q,
    )[i] >= guarantee by {
        let s = panel[i];
        assert(s.butterfat_price == p.butterfat_price && s.protein_price == p.protein_price
            && s.other_solids_price == p.other_solids_price && s.yield_factor == 10000);
        assert(spec_trial_price(s, q) == weighted8);
        assert(q.production * s.yield_factor == 10000 * (q.production as int));
        assert(weighted8 * (10000 * (q.production as int)) == 10000 * (weighted8
            * q.production)) by (nonlinear_arith);
        lemma_round_div_scale(weighted8 * q.production, 100_000_000_000_000, 10000);
        assert(spec_trial_revenue(s, q) == expected);
    }
    lemma_degenerate_premium(
        weighted8,
        spec_revenues(panel, q),
        q.production as int,
        q.protection as int,
        p.loading_factor as int,
        level,
        crate::class_endorsement::spec_rate_or_zero(level),
    );
    lemma_total_loss_zero(spec_revenues(panel, q), guarantee);
}

/// `x * y1 <= x * y2` for nonnegative `x` and `y1 <= y2`.
proof fn lemma_mul_left_inequality_nonneg(x: int, y1: int, y2: int)
    requires
        x >= 0,
        y1 <= y2,
    ensures
        x * y1 <= x * y2,
{
    if x > 0 {
        lemma_mul_left_inequality(x, y1, y2);
    } else {
        assert(x * y1 == 0) by (nonlinear_arith)
            requires
                x == 0,
        ;
        assert(x * y2 == 0) by (nonlinear_arith)
            requires
                x == 0,
        ;
    }
}

} // verus!
