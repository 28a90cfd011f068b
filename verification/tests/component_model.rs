//! End-to-end behaviour of the component pricing model.

use milk_revenue::base_types::Quote;
use milk_revenue::base_types::RequestError;
use milk_revenue::component_endorsement::create_simulation_values;
use milk_revenue::component_endorsement::get_all_endorsements;
use milk_revenue::component_endorsement::get_endorsement;
use milk_revenue::component_types::DailyPrice;
use milk_revenue::component_types::Draw;
use milk_revenue::component_types::PricingFactor;

fn factors() -> PricingFactor {
    PricingFactor {
        butter_allowance: 1715,          // 0.1715
        butter_yield: 12110,             // 1.2110
        dry_whey_allowance: 1991,        // 0.1991
        dry_whey_yield: 10380,           // 1.0380
        cheese_allowance: 2003,          // 0.2003
        casein_yield: 13830,             // 1.3830
        butterfat_yield: 15720,          // 1.5720
        retention_rate: 9000,            // 0.9000
        butterfat_protein_ratio: 11700,  // 1.1700
    }
}

fn prices() -> DailyPrice {
    DailyPrice {
        butterfat_price: 27000,      // 2.70, the flat draw's butterfat price
        protein_price: 21500,        // 2.15
        other_solids_price: 2100,    // 0.21
        loading_factor: 10000,       // 1.0
        expected_yield: 240000,      // 24.0
        yield_deviation: 12000,      // 1.2
    }
}

fn quote() -> Quote {
    Quote {
        class_weight: 0,
        butterfat: 40000,            // 4.0
        protein: 31000,              // 3.1
        production: 10_000_000,      // 1,000.0000
        protection: 10000,           // 1.0
    }
}

/// A draw whose simulated commodity prices reproduce the expected component
/// prices exactly, with a zero yield deviate.
fn flat_draw() -> Draw {
    Draw {
        month1_butter: 24000,
        month2_butter: 24000,
        month3_butter: 24000,
        month1_cheese: 17500,
        month2_cheese: 17500,
        month3_cheese: 17500,
        month1_dry_whey: 4000,
        month2_dry_whey: 4000,
        month3_dry_whey: 4000,
        yield_deviate: 0,
    }
}

fn panel(draw: Draw, count: usize) -> Vec<Draw> {
    let mut draws = Vec::new();
    for _ in 0..count {
        draws.push(draw);
    }
    draws
}

#[test]
fn engine_converts_commodity_prices_to_component_prices() {
    let values = create_simulation_values(&vec![flat_draw()], &prices(), &factors());
    assert_eq!(values.len(), 1);
    // butterfat: round((2.4 - 0.1715) * 1.211, 4) = 2.6987 each month,
    // averaged and rounded to cents: 2.70
    assert_eq!(values[0].butterfat_price, 27000);
    // other solids: round((0.4 - 0.1991) * 1.038, 4) = 0.2085 -> 0.21
    assert_eq!(values[0].other_solids_price, 2100);
    // protein: casein round((1.75 - 0.2003) * 1.383, 4) = 2.1432;
    // cross round(1.5497 * 1.572, 4) = 2.4361; retained
    // round(2.6987 * 0.9, 4) = 2.4288; month value
    // round(2.1432 + (2.4361 - 2.4288) * 1.17, 4) = 2.1517 -> 2.15
    assert_eq!(values[0].protein_price, 21500);
    assert_eq!(values[0].yield_factor, 10000);
}

#[test]
fn engine_scales_yield_deviate() {
    let mut draw = flat_draw();
    draw.yield_deviate = -20000;  // two standard deviations down
    let values = create_simulation_values(&vec![draw], &prices(), &factors());
    // yield 24.0 - 2 * 1.2 = 21.6; factor 21.6 / 24.0 = 0.9
    assert_eq!(values[0].yield_factor, 9000);
}

#[test]
fn flat_component_panel_hits_net_premium_floor() {
    let result = get_endorsement(prices(), quote(), panel(flat_draw(), 5000), factors(), 9000);
    let endorsement = result.unwrap();
    // weighted price 2.70*4.0 + 2.15*3.1 + 0.21*5.7 = 18.662;
    // expected revenue round(18.662 * 1000 / 100) = 187
    assert_eq!(endorsement.revenue_guarantee, 168);  // round(187 * 0.9)
    // no losses; floor 1000 * 0.0002 = 0.2 rounds to a zero premium,
    // and the net premium floor of one internal unit kicks in
    assert_eq!(endorsement.gross_premium, 0);
    assert_eq!(endorsement.subsidy, 0);
    assert_eq!(endorsement.net_premium, 1);
    assert_eq!(endorsement.liability, 1_680_000);
    assert_eq!(endorsement.protected_price, 16_795_800_000_000);
    assert_eq!(endorsement.level, 9000);
}

#[test]
fn component_all_endorsements_match_single_requests() {
    let all =
        get_all_endorsements(prices(), quote(), panel(flat_draw(), 5000), factors()).unwrap();
    assert_eq!(all.len(), 4);
    let levels = [8000i64, 8500, 9000, 9500];
    for (k, level) in levels.iter().enumerate() {
        let single =
            get_endorsement(prices(), quote(), panel(flat_draw(), 5000), factors(), *level)
                .unwrap();
        assert_eq!(all[k], single);
    }
}

#[test]
fn component_guarantee_grows_with_coverage() {
    let all =
        get_all_endorsements(prices(), quote(), panel(flat_draw(), 5000), factors()).unwrap();
    for k in 1..4 {
        assert!(all[k - 1].revenue_guarantee <= all[k].revenue_guarantee);
        assert!(all[k - 1].gross_premium <= all[k].gross_premium);
    }
}

#[test]
fn component_short_panel_is_rejected() {
    let result = get_all_endorsements(prices(), quote(), panel(flat_draw(), 4999), factors());
    assert_eq!(result, Err(RequestError::PanelLength));
}

#[test]
fn component_long_panel_is_rejected() {
    let result =
        get_endorsement(prices(), quote(), panel(flat_draw(), 5001), factors(), 9000);
    assert_eq!(result, Err(RequestError::PanelLength));
}

#[test]
fn component_unknown_coverage_level_is_rejected() {
    let result =
        get_endorsement(prices(), quote(), panel(flat_draw(), 5000), factors(), 9999);
    assert_eq!(result, Err(RequestError::UnknownCoverageLevel));
}

#[test]
fn component_requests_are_deterministic() {
    let first =
        get_all_endorsements(prices(), quote(), panel(flat_draw(), 5000), factors()).unwrap();
    let second =
        get_all_endorsements(prices(), quote(), panel(flat_draw(), 5000), factors()).unwrap();
    assert_eq!(first, second);
}
