use vstd::prelude::*;

use crate::adapters::CalculationMethodAdapter;
use crate::coordinates::Coordinates;
use crate::high_latitude::HighLatitudeRule;
use crate::params::{default_parameters, CalculationParameters};

verus! {

/// Muslim World League. Fajr 18°, Isha 17°, shadow factor 1. The global default
/// and the fallback for unknown countries; uses the angle-based high-latitude
/// rule which suits northern Europe.
#[derive(Debug, Default, Clone, Copy)]
pub struct MwlAdapter;

impl CalculationMethodAdapter for MwlAdapter {
    open spec fn spec_id(&self) -> Seq<char> {
        "mwl"@
    }

    open spec fn spec_display_name(&self) -> Seq<char> {
        "Muslim World League"@
    }

    open spec fn spec_summary(&self) -> Seq<char> {
        "Fajr 18°, Isha 17°. Global default."@
    }

    open spec fn spec_resolve(&self, coordinates: Coordinates) -> CalculationParameters {
        CalculationParameters {
            isha_angle: Some(17000),
            high_latitude_rule: HighLatitudeRule::AngleBased,
            ..default_parameters(18000)
        }
    }

    fn id(&self) -> (r: String) {
        String::from_str("mwl")
    }

    fn display_name(&self) -> (r: String) {
        String::from_str("Muslim World League")
    }

    fn summary(&self) -> (r: String) {
        String::from_str("Fajr 18°, Isha 17°. Global default.")
    }

    fn resolve(&self, _coordinates: Coordinates) -> (p: CalculationParameters) {
        CalculationParameters {
            isha_angle: Some(17000),
            high_latitude_rule: HighLatitudeRule::AngleBased,
            ..CalculationParameters::new(18000)
        }
    }
}

} // verus!
