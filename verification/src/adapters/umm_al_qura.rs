use vstd::prelude::*;

use crate::adapters::CalculationMethodAdapter;
use crate::coordinates::Coordinates;
use crate::high_latitude::HighLatitudeRule;
use crate::params::{default_parameters, CalculationParameters};

verus! {

/// Umm al-Qura University, Makkah. Fajr 18.5°, and Isha as a fixed 90 minutes
/// after Maghrib (not an angle). Standard across Saudi Arabia.
#[derive(Debug, Default, Clone, Copy)]
pub struct UmmAlQuraAdapter;

impl CalculationMethodAdapter for UmmAlQuraAdapter {
    open spec fn spec_id(&self) -> Seq<char> {
        "ummalqura"@
    }

    open spec fn spec_display_name(&self) -> Seq<char> {
        "Umm al-Qura (Makkah)"@
    }

    open spec fn spec_summary(&self) -> Seq<char> {
        "Fajr 18.5°, Isha = Maghrib + 90 min."@
    }

    open spec fn spec_resolve(&self, coordinates: Coordinates) -> CalculationParameters {
        CalculationParameters {
            isha_angle: None,
            isha_fixed_minutes: Some(90),
            high_latitude_rule: HighLatitudeRule::Unadjusted,
            ..default_parameters(18500)
        }
    }

    fn id(&self) -> (r: String) {
        String::from_str("ummalqura")
    }

    fn display_name(&self) -> (r: String) {
        String::from_str("Umm al-Qura (Makkah)")
    }

    fn summary(&self) -> (r: String) {
        String::from_str("Fajr 18.5°, Isha = Maghrib + 90 min.")
    }

    fn resolve(&self, _coordinates: Coordinates) -> (p: CalculationParameters) {
        CalculationParameters {
            isha_angle: None,
            isha_fixed_minutes: Some(90),
            high_latitude_rule: HighLatitudeRule::Unadjusted,
            ..CalculationParameters::new(18500)
        }
    }
}

} // verus!
