//! The complete numeric contract the engine consumes.

use vstd::prelude::*;

use crate::high_latitude::HighLatitudeRule;
use crate::prayer::Prayer;
use crate::prayer_map::PrayerMap;

verus! {

/// Standard atmospheric refraction at the horizon, in thousandths of a degree.
pub const DEFAULT_SUNRISE_ANGLE: i32 = -833;

/// Shafi/Maliki/Hanbali Asr shadow factor (1), in thousandths.
pub const STANDARD_ASR_SHADOW_FACTOR: i32 = 1000;

/// Hanafi Asr shadow factor (2), in thousandths.
pub const HANAFI_ASR_SHADOW_FACTOR: i32 = 2000;

/// The complete numeric contract the engine consumes. Everything
/// method-specific (twilight angles, shadow factors, offsets) is expressed here
/// so the engine itself stays a pure astronomical calculator.
///
/// Angles are in thousandths of a degree and the shadow factor in thousandths.
#[derive(Debug, Clone, Copy, PartialEq, Eq, Structural)]
pub struct CalculationParameters {
    /// Sun depression below the horizon for Fajr (e.g. 18000 for 18°).
    pub fajr_angle: i32,
    /// Sun depression below the horizon for Isha. `None` when the method
    /// defines Isha as a fixed offset after Maghrib instead.
    pub isha_angle: Option<i32>,
    /// Fixed minutes after Maghrib for Isha (e.g. Umm al-Qura = 90). When both
    /// this and `isha_angle` are set, the fixed offset wins.
    pub isha_fixed_minutes: Option<i32>,
    /// Apparent solar altitude at sunrise/sunset (negative = below horizon).
    pub sunrise_angle: i32,
    /// Asr shadow length factor: 1000 = Shafi/Maliki/Hanbali, 2000 = Hanafi.
    pub asr_shadow_factor: i32,
    /// Minutes added to solar transit for Dhuhr.
    pub dhuhr_offset_minutes: i32,
    /// Minutes added to the computed Asr time.
    pub asr_offset_minutes: i32,
    /// Signed per-prayer fine-tuning in minutes, applied last. Absent = 0.
    pub manual_offsets: PrayerMap<i32>,
    /// High-latitude resolution strategy for Fajr/Isha.
    pub high_latitude_rule: HighLatitudeRule,
}

/// The parameters `CalculationParameters::new(fajr_angle)` builds.
pub open spec fn default_parameters(fajr_angle: i32) -> CalculationParameters {
    CalculationParameters {
        fajr_angle,
        isha_angle: None,
        isha_fixed_minutes: None,
        sunrise_angle: DEFAULT_SUNRISE_ANGLE,
        asr_shadow_factor: STANDARD_ASR_SHADOW_FACTOR,
        dhuhr_offset_minutes: 0,
        asr_offset_minutes: 0,
        manual_offsets: PrayerMap::spec_empty(),
        high_latitude_rule: HighLatitudeRule::Unadjusted,
    }
}

impl CalculationParameters {
    /// The manual offset for `p`, in minutes (0 when absent).
    pub open spec fn manual_offset(self, p: Prayer) -> int {
        match self.manual_offsets.slot(p) {
            Some(m) => m as int,
            None => 0,
        }
    }

    /// Parameters with the given Fajr angle and every other field at its
    /// default: no Isha angle or fixed Isha, standard refraction, standard Asr,
    /// no offsets, unadjusted high-latitude times.
    pub fn new(fajr_angle: i32) -> (p: Self)
        ensures
            p == default_parameters(fajr_angle),
    {
        CalculationParameters {
            fajr_angle,
            isha_angle: None,
            isha_fixed_minutes: None,
            sunrise_angle: DEFAULT_SUNRISE_ANGLE,
            asr_shadow_factor: STANDARD_ASR_SHADOW_FACTOR,
            dhuhr_offset_minutes: 0,
            asr_offset_minutes: 0,
            manual_offsets: PrayerMap::new(),
            high_latitude_rule: HighLatitudeRule::Unadjusted,
        }
    }
}

} // verus!
