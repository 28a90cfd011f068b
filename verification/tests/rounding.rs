//! The fixed-point rounding primitive and the subsidy table.

use milk_revenue::math::round_to_fixed;
use milk_revenue::math::subsidy_rate;

#[test]
fn round_half_away_midpoint_up() {
    // 0.0250 rounded to two decimals is 0.03, not 0.02.
    assert_eq!(round_to_fixed(250, 2), 300);
}

#[test]
fn round_half_away_midpoint_down() {
    // -0.0250 rounded to two decimals is -0.03: half away from zero.
    assert_eq!(round_to_fixed(-250, 2), -300);
}

#[test]
fn round_to_whole_units() {
    // 1.2345 rounded to zero decimals is 1.
    assert_eq!(round_to_fixed(12345, 0), 10000);
    // 1.5000 rounds away to 2.
    assert_eq!(round_to_fixed(15000, 0), 20000);
    // -1.5000 rounds away to -2.
    assert_eq!(round_to_fixed(-15000, 0), -20000);
}

#[test]
fn round_to_three_decimals() {
    // -1.2345 rounded to three decimals is -1.235.
    assert_eq!(round_to_fixed(-12345, 3), -12350);
}

#[test]
fn round_is_identity_at_four_decimals() {
    assert_eq!(round_to_fixed(12345, 4), 12345);
    assert_eq!(round_to_fixed(-1, 4), -1);
}

#[test]
fn round_below_half_goes_toward_zero() {
    assert_eq!(round_to_fixed(249, 2), 200);
    assert_eq!(round_to_fixed(-249, 2), -200);
}

#[test]
fn subsidy_table_standard_levels() {
    assert_eq!(subsidy_rate(8000), Some(5500));
    assert_eq!(subsidy_rate(8500), Some(4900));
    assert_eq!(subsidy_rate(9000), Some(4400));
    assert_eq!(subsidy_rate(9500), Some(4400));
}

#[test]
fn subsidy_table_misses_other_levels() {
    assert_eq!(subsidy_rate(7000), None);
    assert_eq!(subsidy_rate(9900), None);
    assert_eq!(subsidy_rate(0), None);
}
