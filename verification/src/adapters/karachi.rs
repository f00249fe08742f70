use vstd::prelude::*;

use crate::adapters::CalculationMethodAdapter;
use crate::coordinates::Coordinates;
use crate::high_latitude::HighLatitudeRule;
use crate::params::{default_parameters, CalculationParameters};

verus! {

/// University of Islamic Sciences, Karachi. Fajr 18°, Isha 18°, shadow factor 1.
/// Common across Pakistan, India, Bangladesh, and Afghanistan.
#[derive(Debug, Default, Clone, Copy)]
pub struct KarachiAdapter;

impl CalculationMethodAdapter for KarachiAdapter {
    open spec fn spec_id(&self) -> Seq<char> {
        "karachi"@
    }

    open spec fn spec_display_name(&self) -> Seq<char> {
        "University of Islamic Sciences, Karachi"@
    }

    open spec fn spec_summary(&self) -> Seq<char> {
        "Fajr 18°, Isha 18°."@
    }

    open spec fn spec_resolve(&self, coordinates: Coordinates) -> CalculationParameters {
        CalculationParameters {
            isha_angle: Some(18000),
            high_latitude_rule: HighLatitudeRule::AngleBased,
            ..default_parameters(18000)
        }
    }

    fn id(&self) -> (r: String) {
        String::from_str("karachi")
    }

    fn display_name(&self) -> (r: String) {
        String::from_str("University of Islamic Sciences, Karachi")
    }

    fn summary(&self) -> (r: String) {
        String::from_str("Fajr 18°, Isha 18°.")
    }

    fn resolve(&self, _coordinates: Coordinates) -> (p: CalculationParameters) {
        CalculationParameters {
            isha_angle: Some(18000),
            high_latitude_rule: HighLatitudeRule::AngleBased,
            ..CalculationParameters::new(18000)
        }
    }
}

} // verus!
