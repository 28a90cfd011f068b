//! End-to-end behaviour of the class pricing model.

use milk_revenue::base_types::Quote;
use milk_revenue::base_types::RequestError;
use milk_revenue::class_endorsement::calculate_endorsement;
use milk_revenue::class_endorsement::create_simulation_values;
use milk_revenue::class_endorsement::get_all_endorsements;
use milk_revenue::class_endorsement::get_endorsement;
use milk_revenue::class_types::DailyPrice;
use milk_revenue::class_types::Draw;

fn prices() -> DailyPrice {
    DailyPrice {
        class_three_price: 200000,  // 20.00
        class_four_price: 180000,   // 18.00
        loading_factor: 10875,      // 1.0875
        expected_yield: 240000,     // 24.0000
        yield_deviation: 12000,     // 1.2000
    }
}

fn quote() -> Quote {
    Quote {
        class_weight: 5000,             // 0.5
        butterfat: 0,
        protein: 0,
        production: 10_000_000_000,     // 1,000,000.0000
        protection: 15000,              // 1.5
    }
}

/// A draw whose simulated monthly prices already equal the expected prices
/// and whose yield deviate is zero.
fn flat_draw() -> Draw {
    Draw {
        month1_class_three: 200000,
        month2_class_three: 200000,
        month3_class_three: 200000,
        month1_class_four: 180000,
        month2_class_four: 180000,
        month3_class_four: 180000,
        yield_deviate: 0,
    }
}

/// A draw whose Class III months all simulate at 10.00, below expectation.
fn depressed_draw() -> Draw {
    Draw {
        month1_class_three: 100000,
        month2_class_three: 100000,
        month3_class_three: 100000,
        month1_class_four: 180000,
        month2_class_four: 180000,
        month3_class_four: 180000,
        yield_deviate: 0,
    }
}

fn panel(draw: Draw, count: usize) -> Vec<Draw> {
    let mut draws = Vec::new();
    for _ in 0..count {
        draws.push(draw);
    }
    draws
}

#[test]
fn engine_averages_and_rounds_monthly_prices() {
    let draw = Draw {
        month1_class_three: 190000,
        month2_class_three: 200000,
        month3_class_three: 210000,
        month1_class_four: 170000,
        month2_class_four: 180000,
        month3_class_four: 190000,
        yield_deviate: 10000,  // one standard deviation up
    };
    let values = create_simulation_values(&vec![draw], &prices());
    assert_eq!(values.len(), 1);
    assert_eq!(values[0].class_three_price, 200000);
    assert_eq!(values[0].class_four_price, 180000);
    // yield 24.0 + 1.0 * 1.2 = 25.2; factor 25.2 / 24.0 = 1.05
    assert_eq!(values[0].yield_factor, 10500);
}

#[test]
fn engine_rounds_average_half_away() {
    let draw = Draw {
        month1_class_three: 100000,
        month2_class_three: 100000,
        month3_class_three: 100150,  // average 10.005 -> 10.01
        month1_class_four: 0,
        month2_class_four: 0,
        month3_class_four: 0,
        yield_deviate: 0,
    };
    let values = create_simulation_values(&vec![draw], &prices());
    assert_eq!(values[0].class_three_price, 100100);
    assert_eq!(values[0].class_four_price, 0);
    assert_eq!(values[0].yield_factor, 10000);
}

#[test]
fn degenerate_panel_prices_premium_from_floor() {
    let result = get_endorsement(prices(), quote(), panel(flat_draw(), 5000), 9500);
    let endorsement = result.unwrap();
    // weighted price 19.00; expected revenue round(19 * 1e6 / 100) = 190000
    assert_eq!(endorsement.revenue_guarantee, 180500);
    // every trial matches expectation, so the floor 1e6 * 0.02 / 100 = 200
    // drives the premium: round(200 * 1.5) = 300, round(300 * 1.0875) = 326
    assert_eq!(endorsement.gross_premium, 326);
    // subsidy at 95%: round(326 * 0.44) = 143; net 326 - 143 = 183
    assert_eq!(endorsement.subsidy, 143);
    assert_eq!(endorsement.net_premium, 183);
    // protected price 19.00 * 0.95, never rounded, at scale 10^12
    assert_eq!(endorsement.protected_price, 18_050_000_000_000);
    assert_eq!(endorsement.liability, 2_707_500_000);
    assert_eq!(endorsement.level, 9500);
}

#[test]
fn depressed_panel_pays_simulated_losses() {
    let result = get_endorsement(prices(), quote(), panel(depressed_draw(), 5000), 9500);
    let endorsement = result.unwrap();
    // every trial: weighted simulated price 14.00, revenue 140000,
    // loss 180500 - 140000 = 40500; average loss 40500
    assert_eq!(endorsement.revenue_guarantee, 180500);
    // round(40500 * 1.5) = 60750; round(60750 * 1.0875) = 66066
    assert_eq!(endorsement.gross_premium, 66066);
    // round(66066 * 0.44) = 29069
    assert_eq!(endorsement.subsidy, 29069);
    assert_eq!(endorsement.net_premium, 36997);
}

#[test]
fn depressed_panel_low_coverage_level() {
    let result = get_endorsement(prices(), quote(), panel(depressed_draw(), 5000), 8000);
    let endorsement = result.unwrap();
    // guarantee round(190000 * 0.80) = 152000; loss 12000 per trial
    assert_eq!(endorsement.revenue_guarantee, 152000);
    // round(12000 * 1.5) = 18000; round(18000 * 1.0875) = 19575
    assert_eq!(endorsement.gross_premium, 19575);
    // subsidy at 80%: round(19575 * 0.55) = 10766
    assert_eq!(endorsement.subsidy, 10766);
    assert_eq!(endorsement.net_premium, 8809);
}

#[test]
fn all_endorsements_cover_the_four_standard_levels() {
    let result = get_all_endorsements(prices(), quote(), panel(depressed_draw(), 5000));
    let endorsements = result.unwrap();
    assert_eq!(endorsements.len(), 4);
    assert_eq!(endorsements[0].level, 8000);
    assert_eq!(endorsements[1].level, 8500);
    assert_eq!(endorsements[2].level, 9000);
    assert_eq!(endorsements[3].level, 9500);
}

#[test]
fn all_endorsements_match_single_requests() {
    let all = get_all_endorsements(prices(), quote(), panel(depressed_draw(), 5000)).unwrap();
    let levels = [8000i64, 8500, 9000, 9500];
    for (k, level) in levels.iter().enumerate() {
        let single =
            get_endorsement(prices(), quote(), panel(depressed_draw(), 5000), *level).unwrap();
        assert_eq!(all[k], single);
    }
}

#[test]
fn guarantee_and_gross_premium_grow_with_coverage() {
    let all = get_all_endorsements(prices(), quote(), panel(depressed_draw(), 5000)).unwrap();
    for k in 1..4 {
        assert!(all[k - 1].revenue_guarantee <= all[k].revenue_guarantee);
        assert!(all[k - 1].gross_premium <= all[k].gross_premium);
    }
}

#[test]
fn net_premium_conserves_gross_less_subsidy() {
    let all = get_all_endorsements(prices(), quote(), panel(depressed_draw(), 5000)).unwrap();
    for endorsement in all.iter() {
        let difference = endorsement.gross_premium - endorsement.subsidy;
        let floored = if difference > 1 { difference } else { 1 };
        assert_eq!(endorsement.net_premium, floored);
    }
}

#[test]
fn identical_requests_give_identical_results() {
    let first = get_all_endorsements(prices(), quote(), panel(depressed_draw(), 5000)).unwrap();
    let second = get_all_endorsements(prices(), quote(), panel(depressed_draw(), 5000)).unwrap();
    assert_eq!(first, second);
}

#[test]
fn short_panel_is_rejected() {
    let result = get_endorsement(prices(), quote(), panel(flat_draw(), 4999), 9500);
    assert_eq!(result, Err(RequestError::PanelLength));
}

#[test]
fn long_panel_is_rejected() {
    let result = get_all_endorsements(prices(), quote(), panel(flat_draw(), 5001));
    assert_eq!(result, Err(RequestError::PanelLength));
}

#[test]
fn exact_panel_succeeds() {
    assert!(get_all_endorsements(prices(), quote(), panel(flat_draw(), 5000)).is_ok());
}

#[test]
fn unknown_coverage_level_is_rejected() {
    let result = get_endorsement(prices(), quote(), panel(flat_draw(), 5000), 7000);
    assert_eq!(result, Err(RequestError::UnknownCoverageLevel));
}

#[test]
fn calculator_accepts_prepared_panel() {
    let values = create_simulation_values(&panel(flat_draw(), 5000), &prices());
    let endorsement = calculate_endorsement(&prices(), &quote(), &values, 9000);
    // guarantee round(190000 * 0.90) = 171000; no losses, floor premium:
    // round(300 * 1.0875) = 326, subsidy round(326 * 0.44) = 143
    assert_eq!(endorsement.revenue_guarantee, 171000);
    assert_eq!(endorsement.gross_premium, 326);
    assert_eq!(endorsement.net_premium, 183);
}
