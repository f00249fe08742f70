use vstd::prelude::*;

use crate::adapters::CalculationMethodAdapter;
use crate::coordinates::Coordinates;
use crate::high_latitude::HighLatitudeRule;
use crate::params::{default_parameters, CalculationParameters};

use crate::prayer::Prayer;
use crate::prayer_map::PrayerMap;

verus! {

/// Jabatan Kemajuan Islam Malaysia: the official Malaysian method, calibrated
/// to reproduce the JAKIM e-Solat output: Subuh as a 17.5° depression, Isyak
/// as 18°, plus the *ihtiyati* (safety) minutes on the post-noon prayers:
/// Zohor +3, Asar +2, Maghrib +2, Isyak +2.
#[derive(Debug, Default, Clone, Copy)]
pub struct JakimAdapter;

impl CalculationMethodAdapter for JakimAdapter {
    open spec fn spec_id(&self) -> Seq<char> {
        "jakim"@
    }

    open spec fn spec_display_name(&self) -> Seq<char> {
        "JAKIM (Malaysia)"@
    }

    open spec fn spec_summary(&self) -> Seq<char> {
        "Fajr 17.5°, Isha 18°, JAKIM ihtiyati. Matches e-Solat."@
    }

    open spec fn spec_resolve(&self, coordinates: Coordinates) -> CalculationParameters {
        CalculationParameters {
            isha_angle: Some(18000),
            dhuhr_offset_minutes: 3,
            asr_offset_minutes: 2,
            manual_offsets: PrayerMap::spec_empty().with(Prayer::Maghrib, 2).with(Prayer::Isha, 2),
            high_latitude_rule: HighLatitudeRule::AngleBased,
            ..default_parameters(17500)
        }
    }

    fn id(&self) -> (r: String) {
        String::from_str("jakim")
    }

    fn display_name(&self) -> (r: String) {
        String::from_str("JAKIM (Malaysia)")
    }

    fn summary(&self) -> (r: String) {
        String::from_str("Fajr 17.5°, Isha 18°, JAKIM ihtiyati. Matches e-Solat.")
    }

    fn resolve(&self, _coordinates: Coordinates) -> (p: CalculationParameters) {
        // There is no dedicated Maghrib/Isha offset field, so the evening
        // ihtiyati rides on the manual offsets.
        let mut manual_offsets = PrayerMap::new();
        manual_offsets.insert(Prayer::Maghrib, 2);
        manual_offsets.insert(Prayer::Isha, 2);
        CalculationParameters {
            isha_angle: Some(18000),
            dhuhr_offset_minutes: 3,
            asr_offset_minutes: 2,
            manual_offsets,
            high_latitude_rule: HighLatitudeRule::AngleBased,
            ..CalculationParameters::new(17500)
        }
    }
}

} // verus!
