//! Types shared by both pricing models: the quote, the endorsement record,
//! the response wrapper and the request-level error.

#![allow(unused_imports)]
use vstd::prelude::*;

verus! {

/// User-specified request parameters. All fields are fixed-point at
/// scale 10^4.
#[derive(Clone, Copy, Debug, PartialEq, Eq, Structural)]
pub struct Quote {
    /// Class III weight of the blended price; the Class IV weight is its
    /// complement (class model only).
    pub class_weight: i64,
    /// Butterfat test percentage (component model only).
    pub butterfat: i64,
    /// Protein test percentage (component model only).
    pub protein: i64,
    /// Production volume covered by the quote.
    pub production: i64,
    /// Protection-factor multiplier applied to guarantee and premium.
    pub protection: i64,
}

impl Quote {
    /// Magnitude bounds forced by the 128-bit fixed-point pipeline.
    pub open spec fn wf(&self) -> bool {
        &&& -100_000 <= self.class_weight <= 100_000
        &&& -100_000 <= self.butterfat <= 100_000
        &&& -100_000 <= self.protein <= 100_000
        &&& -10_000_000_000_000 <= self.production <= 10_000_000_000_000
        &&& -100_000 <= self.protection <= 100_000
    }
}

/// Mathematical model of an [`Endorsement`]: the same seven figures as
/// unbounded integers.
pub ghost struct EndorsementModel {
    pub net_premium: int,
    pub subsidy: int,
    pub gross_premium: int,
    pub protected_price: int,
    pub level: int,
    pub revenue_guarantee: int,
    pub liability: int,
}

/// The output record for one coverage level.
///
/// Scales differ by field, mirroring which pipeline stages round and which
/// scale before returning: `net_premium`, `subsidy` and `gross_premium` are
/// whole internal currency units divided by 10^4 on return, hence external
/// currency at scale 10^4; `protected_price` is the unrounded product of two
/// scale-10^4 factors and a scale-10^8 price, hence scale 10^12; `level` is
/// the coverage level at scale 10^4; `revenue_guarantee` is whole internal
/// currency units; `liability` is the guarantee times the scale-10^4
/// protection factor, hence scale 10^4.
#[derive(Clone, Copy, Debug, PartialEq, Eq, Structural)]
pub struct Endorsement {
    pub net_premium: i128,
    pub subsidy: i128,
    pub gross_premium: i128,
    pub protected_price: i128,
    pub level: i64,
    pub revenue_guarantee: i128,
    pub liability: i128,
}

impl View for Endorsement {
    type V = EndorsementModel;

    open spec fn view(&self) -> EndorsementModel {
        EndorsementModel {
            net_premium: self.net_premium as int,
            subsidy: self.subsidy as int,
            gross_premium: self.gross_premium as int,
            protected_price: self.protected_price as int,
            level: self.level as int,
            revenue_guarantee: self.revenue_guarantee as int,
            liability: self.liability as int,
        }
    }
}

/// Why a request was rejected before any endorsement was computed.
#[derive(Clone, Copy, Debug, PartialEq, Eq, Structural)]
pub enum RequestError {
    /// Contract violation: the draw panel does not hold exactly
    /// `SIMULATION_TRIALS` trials.
    PanelLength,
    /// Invalid parameter: the requested coverage level has no entry in the
    /// subsidy-rate table.
    UnknownCoverageLevel,
}

/// Response wrapper handed back to the host: a diagnostic string (not part
/// of the functional contract) and the computed endorsements.
pub struct Output {
    pub performance: String,
    pub endorsements: Vec<Endorsement>,
}

} // verus!
