use vstd::prelude::*;

use crate::adapters::CalculationMethodAdapter;
use crate::coordinates::Coordinates;
use crate::high_latitude::HighLatitudeRule;
use crate::params::{default_parameters, CalculationParameters};

verus! {

/// Moonsighting Committee Worldwide. Fajr 18°, Isha 18°.
///
/// The canonical Moonsighting method applies a seasonal twilight correction
/// that depends on both latitude and day-of-year, which a location-only
/// `resolve` cannot express. This adapter uses the committee's base angles with
/// an angle-based high-latitude rule as a close approximation.
#[derive(Debug, Default, Clone, Copy)]
pub struct MoonsightingCommitteeAdapter;

impl CalculationMethodAdapter for MoonsightingCommitteeAdapter {
    open spec fn spec_id(&self) -> Seq<char> {
        "moonsighting"@
    }

    open spec fn spec_display_name(&self) -> Seq<char> {
        "Moonsighting Committee Worldwide"@
    }

    open spec fn spec_summary(&self) -> Seq<char> {
        "Fajr 18°, Isha 18° (seasonal approximation)."@
    }

    open spec fn spec_resolve(&self, coordinates: Coordinates) -> CalculationParameters {
        CalculationParameters {
            isha_angle: Some(18000),
            high_latitude_rule: HighLatitudeRule::AngleBased,
            ..default_parameters(18000)
        }
    }

    fn id(&self) -> (r: String) {
        String::from_str("moonsighting")
    }

    fn display_name(&self) -> (r: String) {
        String::from_str("Moonsighting Committee Worldwide")
    }

    fn summary(&self) -> (r: String) {
        String::from_str("Fajr 18°, Isha 18° (seasonal approximation).")
    }

    fn resolve(&self, _coordinates: Coordinates) -> (p: CalculationParameters) {
        CalculationParameters {
            isha_angle: Some(18000),
            high_latitude_rule: HighLatitudeRule::AngleBased,
            ..CalculationParameters::new(18000)
        }
    }
}

} // verus!
