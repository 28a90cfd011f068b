//! Data model of the class pricing model (Class III / Class IV milk).

#![allow(unused_imports)]
use vstd::prelude::*;

use crate::base_types::Quote;

verus! {

/// One Monte Carlo trial's inputs to the class-model simulation engine.
///
/// The six price fields are the trial's simulated monthly Class III and
/// Class IV prices (scale 10^4), already passed through the host's
/// price-simulation transform; `yield_deviate` is the standard-normal
/// deviate of the trial's yield-draw quantile (scale 10^4).
#[derive(Clone, Copy, Debug, PartialEq, Eq, Structural)]
pub struct Draw {
    pub month1_class_three: i64,
    pub month2_class_three: i64,
    pub month3_class_three: i64,
    pub month1_class_four: i64,
    pub month2_class_four: i64,
    pub month3_class_four: i64,
    pub yield_deviate: i64,
}

impl Draw {
    /// Magnitude bounds forced by the 128-bit fixed-point pipeline.
    pub open spec fn wf(&self) -> bool {
        &&& -1_000_000_000 <= self.month1_class_three <= 1_000_000_000
        &&& -1_000_000_000 <= self.month2_class_three <= 1_000_000_000
        &&& -1_000_000_000 <= self.month3_class_three <= 1_000_000_000
        &&& -1_000_000_000 <= self.month1_class_four <= 1_000_000_000
        &&& -1_000_000_000 <= self.month2_class_four <= 1_000_000_000
        &&& -1_000_000_000 <= self.month3_class_four <= 1_000_000_000
        &&& -400_000 <= self.yield_deviate <= 400_000
    }
}

/// Mathematical model of a [`SimulationValue`].
pub ghost struct SimulationModel {
    pub class_three_price: int,
    pub class_four_price: int,
    pub yield_factor: int,
}

/// Derived per-trial output of the simulation engine: the trial's averaged
/// simulated Class III / Class IV prices and its yield-adjustment factor,
/// all at scale 10^4.
#[derive(Clone, Copy, Debug, PartialEq, Eq, Structural)]
pub struct SimulationValue {
    pub class_three_price: i64,
    pub class_four_price: i64,
    pub yield_factor: i64,
}

impl View for SimulationValue {
    type V = SimulationModel;

    open spec fn view(&self) -> SimulationModel {
        SimulationModel {
            class_three_price: self.class_three_price as int,
            class_four_price: self.class_four_price as int,
            yield_factor: self.yield_factor as int,
        }
    }
}

impl SimulationValue {
    /// Magnitude bounds forced by the 128-bit fixed-point pipeline; the
    /// engine establishes them for every value it produces.
    pub open spec fn wf(&self) -> bool {
        &&& -10_000_000_000_000 <= self.class_three_price <= 10_000_000_000_000
        &&& -10_000_000_000_000 <= self.class_four_price <= 10_000_000_000_000
        &&& -2_000_000 <= self.yield_factor <= 2_000_000
    }
}

/// Reference market parameters of a class-model request, at scale 10^4.
/// The per-month sigma and expected-price fields of the wire format feed the
/// host's price-simulation transform and are consumed before this library
/// runs; only the fields the endorsement logic reads appear here.
#[derive(Clone, Copy, Debug, PartialEq, Eq, Structural)]
pub struct DailyPrice {
    /// Expected Class III price.
    pub class_three_price: i64,
    /// Expected Class IV price.
    pub class_four_price: i64,
    /// Loading factor applied to the preliminary premium.
    pub loading_factor: i64,
    /// Expected yield.
    pub expected_yield: i64,
    /// Standard deviation of the yield.
    pub yield_deviation: i64,
}

impl DailyPrice {
    /// Magnitude bounds forced by the 128-bit fixed-point pipeline. The
    /// expected yield must be positive (it divides the simulated yield) and
    /// the yield deviation must stay within a few multiples of it.
    pub open spec fn wf(&self) -> bool {
        &&& -1_000_000_000 <= self.class_three_price <= 1_000_000_000
        &&& -1_000_000_000 <= self.class_four_price <= 1_000_000_000
        &&& -100_000 <= self.loading_factor <= 100_000
        &&& 1 <= self.expected_yield <= 1_000_000_000
        &&& -4 * self.expected_yield <= self.yield_deviation <= 4 * self.expected_yield
    }
}

/// A full class-model request.
pub struct Input {
    pub draws: Vec<Draw>,
    pub prices: DailyPrice,
    pub quote: Quote,
    /// Coverage level for a single-endorsement request, scale 10^4.
    pub coverage: i64,
}

} // verus!
