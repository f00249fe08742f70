use vstd::prelude::*;

use crate::adapters::CalculationMethodAdapter;
use crate::coordinates::Coordinates;
use crate::high_latitude::HighLatitudeRule;
use crate::params::{default_parameters, CalculationParameters};

use crate::prayer::Prayer;
use crate::prayer_map::PrayerMap;

verus! {

/// Kementerian Agama Republik Indonesia (Kemenag): the official Indonesian
/// method. Fajr (Subuh) 20°, Isha (Isya) 18°, Shafi Asr, plus *ihtiyati* minutes
/// calibrated against the published tables for Jakarta: Subuh +2, Dzuhur +3,
/// Ashar +2, Maghrib +3, Isya +2.
#[derive(Debug, Default, Clone, Copy)]
pub struct KemenagAdapter;

impl CalculationMethodAdapter for KemenagAdapter {
    open spec fn spec_id(&self) -> Seq<char> {
        "kemenag"@
    }

    open spec fn spec_display_name(&self) -> Seq<char> {
        "Kemenag (Indonesia)"@
    }

    open spec fn spec_summary(&self) -> Seq<char> {
        "Fajr 20°, Isha 18°, Kemenag ihtiyati."@
    }

    open spec fn spec_resolve(&self, coordinates: Coordinates) -> CalculationParameters {
        CalculationParameters {
            isha_angle: Some(18000),
            dhuhr_offset_minutes: 3,
            asr_offset_minutes: 2,
            manual_offsets: PrayerMap::spec_empty().with(Prayer::Fajr, 2).with(Prayer::Maghrib, 3).with(
                Prayer::Isha,
                2,
            ),
            high_latitude_rule: HighLatitudeRule::AngleBased,
            ..default_parameters(20000)
        }
    }

    fn id(&self) -> (r: String) {
        String::from_str("kemenag")
    }

    fn display_name(&self) -> (r: String) {
        String::from_str("Kemenag (Indonesia)")
    }

    fn summary(&self) -> (r: String) {
        String::from_str("Fajr 20°, Isha 18°, Kemenag ihtiyati.")
    }

    fn resolve(&self, _coordinates: Coordinates) -> (p: CalculationParameters) {
        // There is no dedicated Subuh/Maghrib/Isya offset field, so the
        // remaining ihtiyati rides on the manual offsets.
        let mut manual_offsets = PrayerMap::new();
        manual_offsets.insert(Prayer::Fajr, 2);
        manual_offsets.insert(Prayer::Maghrib, 3);
        manual_offsets.insert(Prayer::Isha, 2);
        CalculationParameters {
            isha_angle: Some(18000),
            dhuhr_offset_minutes: 3,
            asr_offset_minutes: 2,
            manual_offsets,
            high_latitude_rule: HighLatitudeRule::AngleBased,
            ..CalculationParameters::new(20000)
        }
    }
}

} // verus!
