//! Class-model simulation engine, endorsement calculator and request
//! orchestrator, with the laws that hold of them.

#![allow(unused_imports)]
use vstd::prelude::*;
use vstd::arithmetic::mul::*;

use crate::SIMULATION_TRIALS;
use crate::base_types::Endorsement;
use crate::base_types::EndorsementModel;
use crate::base_types::Quote;
use crate::base_types::RequestError;
use crate::class_types::DailyPrice;
use crate::class_types::Draw;
use crate::class_types::SimulationModel;
use crate::class_types::SimulationValue;
use crate::math::is_standard_level;
use crate::math::lemma_abs_mul_le;
use crate::math::lemma_round_div_abs_le;
use crate::math::lemma_round_div_exact;
use crate::math::lemma_round_div_monotone;
use crate::math::lemma_round_div_nonneg;
use crate::math::lemma_round_div_scale;
use crate::math::mul_div_round;
use crate::math::round_div;
use crate::math::spec_round_to_fixed;
use crate::math::spec_subsidy_rate;
use crate::math::subsidy_rate;
use crate::premium::endorsement_model;
use crate::premium::lemma_degenerate_premium;
use crate::premium::lemma_monotone_in_level;
use crate::premium::lemma_total_loss_push;
use crate::premium::revenue_guarantee_parts;
use crate::premium::assemble_endorsement;
use crate::premium::spec_expected_revenue;
use crate::premium::spec_gross_premium;
use crate::premium::spec_loss;
use crate::premium::spec_preliminary_premium;
use crate::premium::spec_revenue_guarantee;
use crate::premium::spec_simulated_revenue;
use crate::premium::spec_total_loss;
use crate::simulation::average_price;
use crate::simulation::spec_average_price;
use crate::simulation::spec_yield_factor;
use crate::simulation::yield_factor;

verus! {

/// The four standard coverage levels, at scale 10^4, in the order they are
/// returned.
pub open spec fn spec_standard_levels() -> Seq<int> {
    seq![8000int, 8500int, 9000int, 9500int]
}

/// The subsidy rate of a coverage level, zero outside the table (an
/// endorsement is only ever computed for levels inside it).
pub open spec fn spec_rate_or_zero(level: int) -> int {
    match spec_subsidy_rate(level) {
        Some(rate) => rate,
        None => 0,
    }
}

/// The simulation value of one trial.
pub open spec fn spec_simulation_value(d: Draw, p: DailyPrice) -> SimulationModel {
    SimulationModel {
        class_three_price: spec_average_price(
            d.month1_class_three as int,
            d.month2_class_three as int,
            d.month3_class_three as int,
        ),
        class_four_price: spec_average_price(
            d.month1_class_four as int,
            d.month2_class_four as int,
            d.month3_class_four as int,
        ),
        yield_factor: spec_yield_factor(
            d.yield_deviate as int,
            p.expected_yield as int,
            p.yield_deviation as int,
        ),
    }
}

/// The whole simulated panel.
pub open spec fn spec_panel(draws: Seq<Draw>, p: DailyPrice) -> Seq<SimulationModel> {
    draws.map_values(|d: Draw| spec_simulation_value(d, p))
}

/// The models of an executable panel.
pub open spec fn models(values: Seq<SimulationValue>) -> Seq<SimulationModel> {
    values.map_values(|s: SimulationValue| s@)
}

/// Weighted expected price, scale 10^8: Class III price weighted by the
/// class weight, Class IV by its complement.
pub open spec fn spec_weighted_price(p: DailyPrice, q: Quote) -> int {
    p.class_three_price * q.class_weight + p.class_four_price * (10000 - q.class_weight)
}

/// One trial's weighted simulated price, scale 10^8.
pub open spec fn spec_trial_price(s: SimulationModel, q: Quote) -> int {
    s.class_three_price * q.class_weight + s.class_four_price * (10000 - q.class_weight)
}

/// One trial's simulated revenue: its weighted simulated price times its
/// effective production, divided by 100 and rounded.
pub open spec fn spec_trial_revenue(s: SimulationModel, q: Quote) -> int {
    spec_simulated_revenue(spec_trial_price(s, q), q.production * s.yield_factor)
}

/// The per-trial simulated revenues of a panel.
pub open spec fn spec_revenues(panel: Seq<SimulationModel>, q: Quote) -> Seq<int> {
    panel.map_values(|s: SimulationModel| spec_trial_revenue(s, q))
}

/// The endorsement of one coverage level, as a function of the request and
/// the simulated panel.
pub open spec fn spec_endorsement(
    p: DailyPrice,
    q: Quote,
    panel: Seq<SimulationModel>,
    level: int,
) -> EndorsementModel {
    endorsement_model(
        spec_weighted_price(p, q),
        spec_revenues(panel, q),
        q.production as int,
        q.protection as int,
        p.loading_factor as int,
        level,
        spec_rate_or_zero(level),
    )
}

/// The ordered endorsements of an "all endorsements" request.
pub open spec fn spec_all_endorsements(p: DailyPrice, q: Quote, panel: Seq<SimulationModel>) -> Seq<
    EndorsementModel,
> {
    spec_standard_levels().map_values(|level: int| spec_endorsement(p, q, panel, level))
}

/// Weighted price of a pair of class prices, shared by the expected and the
/// per-trial computation.
fn weighted_price(class_three: i64, class_four: i64, weight: i64) -> (r: i128)
    requires
        -10_000_000_000_000 <= class_three <= 10_000_000_000_000,
        -10_000_000_000_000 <= class_four <= 10_000_000_000_000,
        -100_000 <= weight <= 100_000,
    ensures
        r == class_three * weight + class_four * (10000 - weight),
        -3_000_000_000_000_000_000 <= r <= 3_000_000_000_000_000_000,
{
    proof {
        lemma_abs_mul_le(class_three as int, weight as int, 10_000_000_000_000, 100_000);
        lemma_abs_mul_le(class_four as int, 10000 - weight as int, 10_000_000_000_000, 110_000);
    }
    (class_three as i128) * (weight as i128) + (class_four as i128) * (10000 - weight as i128)
}

/// Simulation engine: one simulation value per draw, 1:1 by index.
pub fn create_simulation_values(draws: &Vec<Draw>, prices: &DailyPrice) -> (r: Vec<
    SimulationValue,
>)
    requires
        prices.wf(),
        forall|i: int| 0 <= i < draws@.len() ==> (#[trigger] draws@[i]).wf(),
    ensures
        r@.len() == draws@.len(),
        forall|i: int| 0 <= i < draws@.len() ==> (#[trigger] r@[i])@ == spec_simulation_value(
            draws@[i],
            *prices,
        ),
        forall|i: int| 0 <= i < draws@.len() ==> (#[trigger] r@[i]).wf(),
{
    let mut values: Vec<SimulationValue> = Vec::new();
    let n = draws.len();
    let mut idx: usize = 0;
    while idx < n
        invariant
            idx <= n,
            n == draws@.len(),
            values@.len() == idx,
            prices.wf(),
            forall|i: int| 0 <= i < draws@.len() ==> (#[trigger] draws@[i]).wf(),
            forall|i: int|
                0 <= i < idx ==> (#[trigger] values@[i])@ == spec_simulation_value(
                    draws@[i],
                    *prices,
                ),
            forall|i: int| 0 <= i < idx ==> (#[trigger] values@[i]).wf(),
        decreases n - idx,
    {
        let d = &draws[idx];
        let class_three = average_price(
            d.month1_class_three,
            d.month2_class_three,
            d.month3_class_three,
        );
        let class_four = average_price(
            d.month1_class_four,
            d.month2_class_four,
            d.month3_class_four,
        );
        let factor = yield_factor(d.yield_deviate, prices.expected_yield, prices.yield_deviation);
        values.push(
            SimulationValue {
                class_three_price: class_three,
                class_four_price: class_four,
                yield_factor: factor,
            },
        );
        idx = idx + 1;
    }
    values
}

/// Endorsement calculator: one endorsement from a simulated panel, a quote
/// and one standard coverage level.
pub fn calculate_endorsement(
    prices: &DailyPrice,
    quote: &Quote,
    simulation_values: &Vec<SimulationValue>,
    coverage_level: i64,
) -> (e: Endorsement)
    requires
        prices.wf(),
        quote.wf(),
        simulation_values@.len() == SIMULATION_TRIALS,
        forall|i: int|
            0 <= i < simulation_values@.len() ==> (#[trigger] simulation_values@[i]).wf(),
        is_standard_level(coverage_level as int),
    ensures
        e@ == spec_endorsement(
            *prices,
            *quote,
            models(simulation_values@),
            coverage_level as int,
        ),
{
    let weighted8 = weighted_price(
        prices.class_three_price,
        prices.class_four_price,
        quote.class_weight,
    );
    proof {
        lemma_abs_mul_le(
            prices.class_three_price as int,
            quote.class_weight as int,
            1_000_000_000,
            100_000,
        );
        lemma_abs_mul_le(
            prices.class_four_price as int,
            10000 - quote.class_weight as int,
            1_000_000_000,
            110_000,
        );
    }
    let parts = revenue_guarantee_parts(weighted8, quote.production, coverage_level);
    let guarantee = parts.1;
    let mut total: i128 = 0;
    let n = simulation_values.len();
    let mut idx: usize = 0;
    while idx < n
        invariant
            idx <= n,
            n == simulation_values@.len(),
            n == SIMULATION_TRIALS,
            quote.wf(),
            forall|i: int|
                0 <= i < simulation_values@.len() ==> (#[trigger] simulation_values@[i]).wf(),
            -400_000_000_000_000 <= guarantee <= 400_000_000_000_000,
            total == spec_total_loss(
                spec_revenues(models(simulation_values@.subrange(0, idx as int)), *quote),
                guarantee as int,
            ),
            0 <= total <= idx * 100_000_000_000_000_000_000,
        decreases n - idx,
    {
        let s = &simulation_values[idx];
        let trial8 = weighted_price(s.class_three_price, s.class_four_price, quote.class_weight);
        proof {
            lemma_abs_mul_le(quote.production as int, s.yield_factor as int, 10_000_000_000_000, 2_000_000);
        }
        let effective8 = (quote.production as i128) * (s.yield_factor as i128);
        proof {
            lemma_abs_mul_le(
                trial8 as int,
                effective8 as int,
                3_000_000_000_000_000_000,
                20_000_000_000_000_000_000,
            );
        }
        let revenue = mul_div_round(trial8, effective8, 1_000_000_000_000_000_000);
        proof {
            lemma_round_div_abs_le(
                trial8 as int * effective8 as int,
                1_000_000_000_000_000_000,
                60_000_000_000_000_000_000,
            );
        }
        let difference = guarantee - revenue;
        let loss: i128 = if difference > 0 {
            difference
        } else {
            0
        };
        proof {
            let ghost prefix = spec_revenues(
                models(simulation_values@.subrange(0, idx as int)),
                *quote,
            );
            let ghost s_model = simulation_values@[idx as int]@;
            assert(models(simulation_values@.subrange(0, idx as int + 1)) =~= models(
                simulation_values@.subrange(0, idx as int),
            ).push(s_model));
            assert(spec_revenues(
                models(simulation_values@.subrange(0, idx as int + 1)),
                *quote,
            ) =~= prefix.push(spec_trial_revenue(s_model, *quote)));
            lemma_total_loss_push(
                prefix,
                guarantee as int,
                spec_trial_revenue(s_model, *quote),
            );
            assert(revenue == spec_trial_revenue(s_model, *quote));
            assert(loss == spec_loss(guarantee as int, spec_trial_revenue(s_model, *quote)));
        }
        total = total + loss;
        idx = idx + 1;
    }
    proof {
        assert(simulation_values@.subrange(0, n as int) =~= simulation_values@);
    }
    let rate_option = subsidy_rate(coverage_level);
    let rate: i64 = match rate_option {
        Some(r) => r,
        None => {
            proof {
                assert(false);
            }
            0
        },
    };
    assemble_endorsement(
        weighted8,
        guarantee,
        total,
        quote.production,
        quote.protection,
        prices.loading_factor,
        coverage_level,
        rate,
    )
}

/// Request orchestrator, "all endorsements" shape: validates the panel
/// length, simulates once, then calculates the four standard levels in
/// order.
pub fn get_all_endorsements(prices: DailyPrice, quote: Quote, draws: Vec<Draw>) -> (r: Result<
    Vec<Endorsement>,
    RequestError,
>)
    requires
        prices.wf(),
        quote.wf(),
        forall|i: int| 0 <= i < draws@.len() ==> (#[trigger] draws@[i]).wf(),
    ensures
        r is Ok <==> draws@.len() == SIMULATION_TRIALS,
        r matches Ok(endorsements) ==> {
            &&& endorsements@.len() == 4
            &&& forall|k: int|
                0 <= k < 4 ==> (#[trigger] endorsements@[k])@ == spec_all_endorsements(
                    prices,
                    quote,
                    spec_panel(draws@, prices),
                )[k]
        },
        r matches Err(err) ==> err == RequestError::PanelLength,
{
    if draws.len() != SIMULATION_TRIALS {
        return Err(RequestError::PanelLength);
    }
    let values = create_simulation_values(&draws, &prices);
    proof {
        assert(models(values@) =~= spec_panel(draws@, prices));
    }
    let mut endorsements: Vec<Endorsement> = Vec::new();
    endorsements.push(calculate_endorsement(&prices, &quote, &values, 8000));
    endorsements.push(calculate_endorsement(&prices, &quote, &values, 8500));
    endorsements.push(calculate_endorsement(&prices, &quote, &values, 9000));
    endorsements.push(calculate_endorsement(&prices, &quote, &values, 9500));
    Ok(endorsements)
}

/// Request orchestrator, single-endorsement shape: validates the panel
/// length and the coverage level, simulates once, then calculates the one
/// requested level.
pub fn get_endorsement(
    prices: DailyPrice,
    quote: Quote,
    draws: Vec<Draw>,
    coverage_level: i64,
) -> (r: Result<Endorsement, RequestError>)
    requires
        prices.wf(),
        quote.wf(),
        forall|i: int| 0 <= i < draws@.len() ==> (#[trigger] draws@[i]).wf(),
    ensures
        r is Ok <==> (draws@.len() == SIMULATION_TRIALS && is_standard_level(
            coverage_level as int,
        )),
        r matches Ok(endorsement) ==> endorsement@ == spec_endorsement(
            prices,
            quote,
            spec_panel(draws@, prices),
            coverage_level as int,
        ),
        r matches Err(err) ==> (err == RequestError::PanelLength <==> draws@.len()
            != SIMULATION_TRIALS),
        r matches Err(err) ==> (err == RequestError::UnknownCoverageLevel <==> (draws@.len()
            == SIMULATION_TRIALS && !is_standard_level(coverage_level as int))),
{
    if draws.len() != SIMULATION_TRIALS {
        return Err(RequestError::PanelLength);
    }
    if subsidy_rate(coverage_level).is_none() {
        return Err(RequestError::UnknownCoverageLevel);
    }
    let values = create_simulation_values(&draws, &prices);
    proof {
        assert(models(values@) =~= spec_panel(draws@, prices));
    }
    Ok(calculate_endorsement(&prices, &quote, &values, coverage_level))
}

/// Consistency law: the k-th element of an "all endorsements" result is
/// exactly the single-endorsement result at the k-th standard level, for the
/// same prices, quote and panel.
pub proof fn lemma_all_matches_single(
    p: DailyPrice,
    q: Quote,
    panel: Seq<SimulationModel>,
    k: int,
)
    requires
        0 <= k < 4,
    ensures
        spec_all_endorsements(p, q, panel)[k] == spec_endorsement(
            p,
            q,
            panel,
            spec_standard_levels()[k],
        ),
{
}

/// Determinism law: any two results that meet the public contract for the
/// same inputs are equal; the endorsement is a function of the request
/// alone.
pub proof fn lemma_deterministic(
    p: DailyPrice,
    q: Quote,
    panel: Seq<SimulationModel>,
    level: int,
    e1: EndorsementModel,
    e2: EndorsementModel,
)
    requires
        e1 == spec_endorsement(p, q, panel, level),
        e2 == spec_endorsement(p, q, panel, level),
    ensures
        e1 == e2,
{
}

/// Monotonicity law: for a fixed simulated panel, the revenue guarantee and
/// the gross premium are non-decreasing in the coverage level. Requires the
/// prices, weights and factors to be nonnegative and the class weight to be
/// a true weight; a negative expected price, for instance, reverses the
/// guarantee's direction.
pub proof fn lemma_monotone(
    p: DailyPrice,
    q: Quote,
    panel: Seq<SimulationModel>,
    level1: int,
    level2: int,
)
    requires
        p.class_three_price >= 0,
        p.class_four_price >= 0,
        0 <= q.class_weight <= 10000,
        q.production >= 0,
        q.protection >= 0,
        p.loading_factor >= 0,
        0 <= level1 <= level2,
    ensures
        spec_endorsement(p, q, panel, level1).revenue_guarantee <= spec_endorsement(
            p,
            q,
            panel,
            level2,
        ).revenue_guarantee,
        spec_endorsement(p, q, panel, level1).gross_premium <= spec_endorsement(
            p,
            q,
            panel,
            level2,
        ).gross_premium,
{
    lemma_mul_nonnegative(p.class_three_price as int, q.class_weight as int);
    lemma_mul_nonnegative(p.class_four_price as int, 10000 - q.class_weight as int);
    lemma_monotone_in_level(
        spec_weighted_price(p, q),
        spec_revenues(panel, q),
        q.production as int,
        q.protection as int,
        p.loading_factor as int,
        level1,
        level2,
        spec_rate_or_zero(level1),
        spec_rate_or_zero(level2),
    );
}

/// Degenerate-draw law: a trial whose monthly prices are all equal and whose
/// yield deviate is zero simulates to that common price rounded to two
/// decimals, with a yield-adjustment factor of exactly one.
pub proof fn lemma_degenerate_draw(d: Draw, p: DailyPrice)
    requires
        p.wf(),
        d.yield_deviate == 0,
        d.month1_class_three == d.month2_class_three,
        d.month2_class_three == d.month3_class_three,
        d.month1_class_four == d.month2_class_four,
        d.month2_class_four == d.month3_class_four,
    ensures
        spec_simulation_value(d, p).class_three_price == spec_round_to_fixed(
            d.month1_class_three as int,
            2,
        ),
        spec_simulation_value(d, p).class_four_price == spec_round_to_fixed(
            d.month1_class_four as int,
            2,
        ),
        spec_simulation_value(d, p).yield_factor == 10000,
{
    let ey = p.expected_yield as int;
    lemma_round_div_exact(ey, 10000);
    assert(round_div(0 * p.yield_deviation + 10000 * ey, 10000) == ey);
    lemma_round_div_exact(10000, ey);
    assert(spec_yield_factor(0, ey, p.yield_deviation as int) == 10000);
    lemma_round_div_scale(d.month1_class_three as int, 100, 3);
    assert(3 * (d.month1_class_three as int) == d.month1_class_three + d.month2_class_three
        + d.month3_class_three);
    lemma_round_div_scale(d.month1_class_four as int, 100, 3);
}

/// Degenerate-scenario law: when every trial's simulated prices equal the
/// expected prices and every yield-adjustment factor is exactly one, no
/// trial loses anything, and the premium comes from the floor
/// `production * 0.02 / 100` alone.
pub proof fn lemma_degenerate_scenario(
    p: DailyPrice,
    q: Quote,
    panel: Seq<SimulationModel>,
    level: int,
)
    requires
        p.class_three_price >= 0,
        p.class_four_price >= 0,
        0 <= q.class_weight <= 10000,
        q.production >= 0,
        0 <= level <= 10000,
        forall|i: int| 0 <= i < panel.len() ==> (#[trigger] panel[i]).class_three_price
            == p.class_three_price && panel[i].class_four_price == p.class_four_price
            && panel[i].yield_factor == 10000,
    ensures
        spec_total_loss(
            spec_revenues(panel, q),
            spec_revenue_guarantee(
                spec_expected_revenue(spec_weighted_price(p, q), q.production as int),
                level,
            ),
        ) == 0,
        spec_endorsement(p, q, panel, level).gross_premium == spec_gross_premium(
            spec_preliminary_premium(2 * q.production, q.protection as int),
            p.loading_factor as int,
        ),
{
    let weighted8 = spec_weighted_price(p, q);
    let expected = spec_expected_revenue(weighted8, q.production as int);
    let guarantee = spec_revenue_guarantee(expected, level);
    lemma_mul_nonnegative(p.class_three_price as int, q.class_weight as int);
    lemma_mul_nonnegative(p.class_four_price as int, 10000 - q.class_weight as int);
    lemma_mul_nonnegative(weighted8, q.production as int);
    lemma_round_div_nonneg(weighted8 * q.production, 100_000_000_000_000);
    // the guarantee never exceeds the expected revenue at levels up to one
    lemma_mul_left_inequality_nonneg(expected, level, 10000);
    lemma_round_div_monotone(expected * level, expected * 10000, 10000);
    lemma_round_div_exact(expected, 10000);
    assert(guarantee <= expected);
    // every trial's revenue is exactly the expected revenue
    assert forall|i: int| 0 <= i < spec_revenues(panel, q).len() implies #[trigger] spec_revenues(
        panel,
        q,
    )[i] >= guarantee by {
        let s = panel[i];
        assert(spec_trial_price(s, q) == weighted8);
        assert(q.production * s.yield_factor == 10000 * (q.production as int));
        assert(weighted8 * (10000 * (q.production as int)) == 10000 * (weighted8
            * q.production)) by (nonlinear_arith);
        lemma_round_div_scale(weighted8 * q.production, 100_000_000_000_000, 10000);
        assert(spec_trial_revenue(s, q) == expected);
    }
    lemma_degenerate_premium(
        weighted8,
        spec_revenues(panel, q),
        q.production as int,
        q.protection as int,
        p.loading_factor as int,
        level,
        spec_rate_or_zero(level),
    );
    crate::premium::lemma_total_loss_zero(spec_revenues(panel, q), guarantee);
}

/// `x * y1 <= x * y2` for nonnegative `x` and `y1 <= y2`.
proof fn lemma_mul_left_inequality_nonneg(x: int, y1: int, y2: int)
    requires
        x >= 0,
        y1 <= y2,
    ensures
        x * y1 <= x * y2,
{
    if x > 0 {
        lemma_mul_left_inequality(x, y1, y2);
    } else {
        assert(x * y1 == 0) by (nonlinear_arith)
            requires
                x == 0,
        ;
        assert(x * y2 == 0) by (nonlinear_arith)
            requires
                x == 0,
        ;
    }
}

} // verus!
