//! Actuarial premium quotes ("endorsements") for a milk-revenue protection
//! product, under two pricing models: "class" (Class III / Class IV milk) and
//! "component" (butterfat / protein / other solids).
//!
//! All quantities are exact fixed-point integers. A value of scale `SCALE`
//! (10^4) stores a number with four decimal digits; derived quantities carry
//! scale 10^8 or 10^12 where products demand it, and each field or function
//! documents its scale. Every rounding step is "round half away from zero",
//! the product's single midpoint rule (see [`math::round_div`]).
//!
//! The host runtime that feeds this library performs the two floating-point
//! primitives that precede it — the per-month price-simulation transform and
//! the normal-quantile mapping of a yield draw — and hands the results in as
//! plain fixed-point values inside each [`class_types::Draw`] /
//! [`component_types::Draw`]. Everything from there to the finished
//! endorsement is computed and proved here.

#![allow(unused_imports)]
use vstd::prelude::*;

pub mod base_types;
pub mod class_endorsement;
pub mod class_types;
pub mod component_endorsement;
pub mod component_types;
pub mod math;
pub mod premium;
pub mod simulation;

verus! {

/// Fixed-point scale of all externally supplied quantities: 10^4, i.e. four
/// decimal digits.
pub const SCALE: i64 = 10000;

/// Required length of the Monte Carlo draw panel. A request whose panel has
/// any other length is rejected with a contract-violation error rather than
/// truncated.
pub const SIMULATION_TRIALS: usize = 5000;

} // verus!
