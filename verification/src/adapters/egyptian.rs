use vstd::prelude::*;

use crate::adapters::CalculationMethodAdapter;
use crate::coordinates::Coordinates;
use crate::high_latitude::HighLatitudeRule;
use crate::params::{default_parameters, CalculationParameters};

verus! {

/// Egyptian General Authority of Survey. Fajr 19.5°, Isha 17.5°, shadow factor 1.
#[derive(Debug, Default, Clone, Copy)]
pub struct EgyptianAdapter;

impl CalculationMethodAdapter for EgyptianAdapter {
    open spec fn spec_id(&self) -> Seq<char> {
        "egyptian"@
    }

    open spec fn spec_display_name(&self) -> Seq<char> {
        "Egyptian General Authority of Survey"@
    }

    open spec fn spec_summary(&self) -> Seq<char> {
        "Fajr 19.5°, Isha 17.5°."@
    }

    open spec fn spec_resolve(&self, coordinates: Coordinates) -> CalculationParameters {
        CalculationParameters {
            isha_angle: Some(17500),
            high_latitude_rule: HighLatitudeRule::AngleBased,
            ..default_parameters(19500)
        }
    }

    fn id(&self) -> (r: String) {
        String::from_str("egyptian")
    }

    fn display_name(&self) -> (r: String) {
        String::from_str("Egyptian General Authority of Survey")
    }

    fn summary(&self) -> (r: String) {
        String::from_str("Fajr 19.5°, Isha 17.5°.")
    }

    fn resolve(&self, _coordinates: Coordinates) -> (p: CalculationParameters) {
        CalculationParameters {
            isha_angle: Some(17500),
            high_latitude_rule: HighLatitudeRule::AngleBased,
            ..CalculationParameters::new(19500)
        }
    }
}

} // verus!
