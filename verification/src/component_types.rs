//! Data model of the component pricing model (butterfat / protein /
//! other solids).

#![allow(unused_imports)]
use vstd::prelude::*;

use crate::base_types::Quote;

verus! {

/// One Monte Carlo trial's inputs to the component-model simulation engine.
///
/// The nine price fields are the trial's simulated monthly butter, cheese
/// and dry-whey prices (scale 10^4), already passed through the host's
/// price-simulation transform; `yield_deviate` is the standard-normal
/// deviate of the trial's yield-draw quantile (scale 10^4).
#[derive(Clone, Copy, Debug, PartialEq, Eq, Structural)]
pub struct Draw {
    pub month1_butter: i64,
    pub month2_butter: i64,
    pub month3_butter: i64,
    pub month1_cheese: i64,
    pub month2_cheese: i64,
    pub month3_cheese: i64,
    pub month1_dry_whey: i64,
    pub month2_dry_whey: i64,
    pub month3_dry_whey: i64,
    pub yield_deviate: i64,
}

impl Draw {
    /// Magnitude bounds forced by the 128-bit fixed-point pipeline.
    pub open spec fn wf(&self) -> bool {
        &&& -1_000_000_000 <= self.month1_butter <= 1_000_000_000
        &&& -1_000_000_000 <= self.month2_butter <= 1_000_000_000
        &&& -1_000_000_000 <= self.month3_butter <= 1_000_000_000
        &&& -1_000_000_000 <= self.month1_cheese <= 1_000_000_000
        &&& -1_000_000_000 <= self.month2_cheese <= 1_000_000_000
        &&& -1_000_000_000 <= self.month3_cheese <= 1_000_000_000
        &&& -1_000_000_000 <= self.month1_dry_whey <= 1_000_000_000
        &&& -1_000_000_000 <= self.month2_dry_whey <= 1_000_000_000
        &&& -1_000_000_000 <= self.month3_dry_whey <= 1_000_000_000
        &&& -400_000 <= self.yield_deviate <= 400_000
    }
}

/// Mathematical model of a [`SimulationValue`].
pub ghost struct SimulationModel {
    pub butterfat_price: int,
    pub protein_price: int,
    pub other_solids_price: int,
    pub yield_factor: int,
}

/// Derived per-trial output of the simulation engine: the trial's averaged
/// simulated butterfat, protein and other-solids prices and its
/// yield-adjustment factor, all at scale 10^4.
#[derive(Clone, Copy, Debug, PartialEq, Eq, Structural)]
pub struct SimulationValue {
    pub butterfat_price: i64,
    pub protein_price: i64,
    pub other_solids_price: i64,
    pub yield_factor: i64,
}

impl View for SimulationValue {
    type V = SimulationModel;

    open spec fn view(&self) -> SimulationModel {
        SimulationModel {
            butterfat_price: self.butterfat_price as int,
            protein_price: self.protein_price as int,
            other_solids_price: self.other_solids_price as int,
            yield_factor: self.yield_factor as int,
        }
    }
}

impl SimulationValue {
    /// Magnitude bounds forced by the 128-bit fixed-point pipeline; the
    /// engine establishes them for every value it produces.
    pub open spec fn wf(&self) -> bool {
        &&& -10_000_000_000_000 <= self.butterfat_price <= 10_000_000_000_000
        &&& -10_000_000_000_000 <= self.protein_price <= 10_000_000_000_000
        &&& -10_000_000_000_000 <= self.other_solids_price <= 10_000_000_000_000
        &&& -2_000_000 <= self.yield_factor <= 2_000_000
    }
}

/// Reference market parameters of a component-model request, at scale 10^4.
/// The per-month sigma and expected-price fields of the wire format feed the
/// host's price-simulation transform and are consumed before this library
/// runs; only the fields the endorsement logic reads appear here.
#[derive(Clone, Copy, Debug, PartialEq, Eq, Structural)]
pub struct DailyPrice {
    /// Expected butterfat price.
    pub butterfat_price: i64,
    /// Expected protein price.
    pub protein_price: i64,
    /// Expected other-solids price.
    pub other_solids_price: i64,
    /// Loading factor applied to the preliminary premium.
    pub loading_factor: i64,
    /// Expected yield.
    pub expected_yield: i64,
    /// Standard deviation of the yield.
    pub yield_deviation: i64,
}

impl DailyPrice {
    /// Magnitude bounds forced by the 128-bit fixed-point pipeline. The
    /// expected yield must be positive (it divides the simulated yield) and
    /// the yield deviation must stay within a few multiples of it.
    pub open spec fn wf(&self) -> bool {
        &&& -1_000_000_000 <= self.butterfat_price <= 1_000_000_000
        &&& -1_000_000_000 <= self.protein_price <= 1_000_000_000
        &&& -1_000_000_000 <= self.other_solids_price <= 1_000_000_000
        &&& -100_000 <= self.loading_factor <= 100_000
        &&& 1 <= self.expected_yield <= 1_000_000_000
        &&& -4 * self.expected_yield <= self.yield_deviation <= 4 * self.expected_yield
    }
}

/// Manufacturing allowances and yields that turn commodity prices into
/// component prices, at scale 10^4.
#[derive(Clone, Copy, Debug, PartialEq, Eq, Structural)]
pub struct PricingFactor {
    pub butter_allowance: i64,
    pub butter_yield: i64,
    pub dry_whey_allowance: i64,
    pub dry_whey_yield: i64,
    pub cheese_allowance: i64,
    pub casein_yield: i64,
    pub butterfat_yield: i64,
    pub retention_rate: i64,
    pub butterfat_protein_ratio: i64,
}

impl PricingFactor {
    /// Magnitude bounds forced by the 128-bit fixed-point pipeline:
    /// allowances are price-like, yields and rates are small factors.
    pub open spec fn wf(&self) -> bool {
        &&& -1_000_000_000 <= self.butter_allowance <= 1_000_000_000
        &&& -100_000 <= self.butter_yield <= 100_000
        &&& -1_000_000_000 <= self.dry_whey_allowance <= 1_000_000_000
        &&& -100_000 <= self.dry_whey_yield <= 100_000
        &&& -1_000_000_000 <= self.cheese_allowance <= 1_000_000_000
        &&& -100_000 <= self.casein_yield <= 100_000
        &&& -100_000 <= self.butterfat_yield <= 100_000
        &&& -100_000 <= self.retention_rate <= 100_000
        &&& -100_000 <= self.butterfat_protein_ratio <= 100_000
    }
}

/// A full component-model request.
pub struct Input {
    pub draws: Vec<Draw>,
    pub factors: PricingFactor,
    pub prices: DailyPrice,
    pub quote: Quote,
    /// Coverage level for a single-endorsement request, scale 10^4.
    pub coverage: i64,
}

} // verus!
