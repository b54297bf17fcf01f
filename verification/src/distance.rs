use vstd::prelude::*;

use crate::models::{Coordinates, Datum, Formula, spec_datum_constants};

verus! {

/// The failure of a distance calculation, carrying a human-readable message.
///
/// The only calculator with a genuine failure mode is Vincenty's iterative
/// method, which reports a convergence failure for near-antipodal points.
#[derive(Debug, Clone, PartialEq, Eq)]
pub struct DistanceCalculationError(pub String);

/// The strategy interface: one operation from two coordinates to a distance
/// in kilometers, or a failure.
///
/// The formulas themselves evaluate in floating point, which this library
/// does not interpret, so the trait promises nothing about the value it
/// returns; implementations live with the caller. Great Circle and
/// Haversine never fail, but share the fallible shape for uniformity.
pub trait DistanceCalculator {
    fn calculate_distance(&self, from: &Coordinates, to: &Coordinates) -> Result<
        crate::models::FloatBits,
        DistanceCalculationError,
    >;
}

/// A fully configured calculator: the chosen formula together with exactly
/// the datum constants that formula needs.
///
/// Great Circle and Haversine use only the mean radius of the chosen datum;
/// Vincenty uses all three constants. Lengths are exact integers in
/// nanometers and the inverse flattening is an exact integer in units of
/// 1e-12, as in `DatumConstants`.
#[derive(Clone, Copy, PartialEq, Eq, Structural, Debug)]
pub enum CalculatorConfig {
    GreatCircle { earth_radius_in_nanometers: u64 },
    Haversine { earth_radius_in_nanometers: u64 },
    Vincenty {
        earth_radius_in_nanometers: u64,
        semi_minor_axis_in_nanometers: u64,
        inverse_flattening_in_trillionths: u64,
    },
}

/// What the factory returns for a given formula and datum.
pub open spec fn spec_create_calculator(formula: Formula, datum: Datum) -> CalculatorConfig {
    let constants = spec_datum_constants(datum);
    match formula {
        Formula::GreatCircle => CalculatorConfig::GreatCircle {
            earth_radius_in_nanometers: constants.earth_radius_in_nanometers,
        },
        Formula::Haversine => CalculatorConfig::Haversine {
            earth_radius_in_nanometers: constants.earth_radius_in_nanometers,
        },
        Formula::Vincenty => CalculatorConfig::Vincenty {
            earth_radius_in_nanometers: constants.earth_radius_in_nanometers,
            semi_minor_axis_in_nanometers: constants.semi_minor_axis_in_nanometers,
            inverse_flattening_in_trillionths: constants.inverse_flattening_in_trillionths,
        },
    }
}

pub struct DistanceCalculatorFactory;

impl DistanceCalculatorFactory {
    /// Pure, total construction: look up the datum constants, then configure
    /// the calculator variant named by the formula, injecting only the
    /// constants that variant needs. No failure path; both enums are closed.
    pub fn create(formula: &Formula, datum: &Datum) -> (r: CalculatorConfig)
        ensures
            r == spec_create_calculator(*formula, *datum),
    {
        let constants = datum.constants();
        match formula {
            Formula::GreatCircle => CalculatorConfig::GreatCircle {
                earth_radius_in_nanometers: constants.earth_radius_in_nanometers,
            },
            Formula::Haversine => CalculatorConfig::Haversine {
                earth_radius_in_nanometers: constants.earth_radius_in_nanometers,
            },
            Formula::Vincenty => CalculatorConfig::Vincenty {
                earth_radius_in_nanometers: constants.earth_radius_in_nanometers,
                semi_minor_axis_in_nanometers: constants.semi_minor_axis_in_nanometers,
                inverse_flattening_in_trillionths: constants.inverse_flattening_in_trillionths,
            },
        }
    }
}

} // verus!
