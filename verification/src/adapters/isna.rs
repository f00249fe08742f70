use vstd::prelude::*;

use crate::adapters::CalculationMethodAdapter;
use crate::coordinates::Coordinates;
use crate::high_latitude::HighLatitudeRule;
use crate::params::{default_parameters, CalculationParameters};

verus! {

/// Islamic Society of North America. Fajr 15°, Isha 15°, shadow factor 1. Common
/// across the US and Canada.
#[derive(Debug, Default, Clone, Copy)]
pub struct IsnaAdapter;

impl CalculationMethodAdapter for IsnaAdapter {
    open spec fn spec_id(&self) -> Seq<char> {
        "isna"@
    }

    open spec fn spec_display_name(&self) -> Seq<char> {
        "Islamic Society of North America"@
    }

    open spec fn spec_summary(&self) -> Seq<char> {
        "Fajr 15°, Isha 15°. North America."@
    }

    open spec fn spec_resolve(&self, coordinates: Coordinates) -> CalculationParameters {
        CalculationParameters {
            isha_angle: Some(15000),
            high_latitude_rule: HighLatitudeRule::AngleBased,
            ..default_parameters(15000)
        }
    }

    fn id(&self) -> (r: String) {
        String::from_str("isna")
    }

    fn display_name(&self) -> (r: String) {
        String::from_str("Islamic Society of North America")
    }

    fn summary(&self) -> (r: String) {
        String::from_str("Fajr 15°, Isha 15°. North America.")
    }

    fn resolve(&self, _coordinates: Coordinates) -> (p: CalculationParameters) {
        CalculationParameters {
            isha_angle: Some(15000),
            high_latitude_rule: HighLatitudeRule::AngleBased,
            ..CalculationParameters::new(15000)
        }
    }
}

} // verus!
