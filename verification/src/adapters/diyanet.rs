use vstd::prelude::*;

use crate::adapters::CalculationMethodAdapter;
use crate::coordinates::Coordinates;
use crate::high_latitude::HighLatitudeRule;
use crate::params::{default_parameters, CalculationParameters};

verus! {

/// Türkiye Diyanet İşleri Başkanlığı. The validated reference method: Fajr 18°,
/// Isha 17°, a -1.9° sunrise/maghrib horizon, shadow factor 1, and the official
/// ihtiyat (precaution) offsets of +5 min on Dhuhr and +4 min on Asr.
#[derive(Debug, Default, Clone, Copy)]
pub struct DiyanetAdapter;

impl CalculationMethodAdapter for DiyanetAdapter {
    open spec fn spec_id(&self) -> Seq<char> {
        "diyanet"@
    }

    open spec fn spec_display_name(&self) -> Seq<char> {
        "Diyanet İşleri (Türkiye)"@
    }

    open spec fn spec_summary(&self) -> Seq<char> {
        "Fajr 18°, Isha 17°, horizon −1.9°, +5 min Dhuhr, +4 min Asr."@
    }

    open spec fn spec_resolve(&self, coordinates: Coordinates) -> CalculationParameters {
        CalculationParameters {
            isha_angle: Some(17000),
            sunrise_angle: -1900i32,
            asr_shadow_factor: 1000,
            dhuhr_offset_minutes: 5,
            asr_offset_minutes: 4,
            high_latitude_rule: HighLatitudeRule::Unadjusted,
            ..default_parameters(18000)
        }
    }

    fn id(&self) -> (r: String) {
        String::from_str("diyanet")
    }

    fn display_name(&self) -> (r: String) {
        String::from_str("Diyanet İşleri (Türkiye)")
    }

    fn summary(&self) -> (r: String) {
        String::from_str("Fajr 18°, Isha 17°, horizon −1.9°, +5 min Dhuhr, +4 min Asr.")
    }

    fn resolve(&self, _coordinates: Coordinates) -> (p: CalculationParameters) {
        CalculationParameters {
            fajr_angle: 18000,
            isha_angle: Some(17000),
            sunrise_angle: -1900,
            asr_shadow_factor: 1000,
            dhuhr_offset_minutes: 5,
            asr_offset_minutes: 4,
            high_latitude_rule: HighLatitudeRule::Unadjusted,
            ..CalculationParameters::new(18000)
        }
    }
}

} // verus!
