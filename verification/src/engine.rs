//! The exact, integer part of the day's calculation: the Julian day number of a
//! civil date, and the placing of the six events on the time line once their
//! solar times are known in whole minutes from local midnight.
//!
//! Method offsets, the fixed-interval Isha and the per-prayer fine-tuning are
//! applied here in whole minutes, so they shift an event by exactly that many
//! minutes.

use vstd::prelude::*;

use crate::params::CalculationParameters;
use crate::prayer::{spec_day_order, Prayer};
use crate::prayer_map::PrayerMap;
use crate::prayer_times::{floor_div, valid_instant, PrayerTimes, MAX_INSTANT, MIN_INSTANT};

verus! {

/// Minutes from local midnight of event `p` after the method offsets, the
/// fixed-interval Isha and the manual fine-tuning, given the solar times
/// `raw` (minutes from local midnight, absent when the sun never reaches the
/// event's angle).
///
/// - Dhuhr and Asr get the method's Dhuhr and Asr offsets.
/// - With a fixed Isha interval, Isha is Maghrib's solar time plus the interval
///   (absent when Maghrib is); otherwise it is Isha's solar time.
/// - Every event then gets its manual offset.
pub open spec fn spec_event_minutes(
    raw: PrayerMap<i32>,
    params: CalculationParameters,
    p: Prayer,
) -> Option<int> {
    let base: Option<int> = match p {
        Prayer::Dhuhr => match raw.slot(Prayer::Dhuhr) {
            Some(m) => Some(m + params.dhuhr_offset_minutes),
            None => None,
        },
        Prayer::Asr => match raw.slot(Prayer::Asr) {
            Some(m) => Some(m + params.asr_offset_minutes),
            None => None,
        },
        Prayer::Isha => match params.isha_fixed_minutes {
            Some(fixed) => match raw.slot(Prayer::Maghrib) {
                Some(m) => Some(m + fixed),
                None => None,
            },
            None => match raw.slot(Prayer::Isha) {
                Some(m) => Some(m as int),
                None => None,
            },
        },
        _ => match raw.slot(p) {
            Some(m) => Some(m as int),
            None => None,
        },
    };
    match base {
        Some(m) => Some(m + params.manual_offset(p)),
        None => None,
    }
}

/// The instant of event `p`: local midnight plus its minutes.
pub open spec fn spec_event_instant(
    midnight: i64,
    raw: PrayerMap<i32>,
    params: CalculationParameters,
    p: Prayer,
) -> Option<int> {
    match spec_event_minutes(raw, params, p) {
        Some(m) => Some(midnight + 60 * m),
        None => None,
    }
}

/// Every event lands in the representable calendar range.
pub open spec fn events_in_range(
    midnight: i64,
    raw: PrayerMap<i32>,
    params: CalculationParameters,
) -> bool {
    forall|p: Prayer| #[trigger]
        spec_event_instant(midnight, raw, params, p) matches Some(t) ==> valid_instant(t)
}

/// `t` holds the day's events placed from local `midnight`.
pub open spec fn is_placement(
    midnight: i64,
    raw: PrayerMap<i32>,
    params: CalculationParameters,
    t: PrayerTimes,
) -> bool {
    &&& t.date == midnight
    &&& forall|p: Prayer| #[trigger]
        t.times.slot(p) == match spec_event_instant(midnight, raw, params, p) {
            Some(x) => Some(x as i64),
            None => None,
        }
}

/// Minutes from local midnight of event `p` (see [`spec_event_minutes`]).
fn event_minutes(raw: &PrayerMap<i32>, params: &CalculationParameters, p: Prayer) -> (r: Option<
    i64,
>)
    ensures
        match r {
            Some(m) => spec_event_minutes(*raw, *params, p) == Some(m as int),
            None => spec_event_minutes(*raw, *params, p) is None,
        },
{
    let base: Option<i64> = match p {
        Prayer::Dhuhr => match raw.get_copy(Prayer::Dhuhr) {
            Some(m) => Some(m as i64 + params.dhuhr_offset_minutes as i64),
            None => None,
        },
        Prayer::Asr => match raw.get_copy(Prayer::Asr) {
            Some(m) => Some(m as i64 + params.asr_offset_minutes as i64),
            None => None,
        },
        Prayer::Isha => match params.isha_fixed_minutes {
            Some(fixed) => match raw.get_copy(Prayer::Maghrib) {
                Some(m) => Some(m as i64 + fixed as i64),
                None => None,
            },
            None => match raw.get_copy(Prayer::Isha) {
                Some(m) => Some(m as i64),
                None => None,
            },
        },
        _ => match raw.get_copy(p) {
            Some(m) => Some(m as i64),
            None => None,
        },
    };
    let manual: i64 = match params.manual_offsets.get_copy(p) {
        Some(m) => m as i64,
        None => 0,
    };
    match base {
        Some(m) => Some(m + manual),
        None => None,
    }
}

/// Place the day's events on the time line: each event's instant is local
/// `midnight` plus its minutes after the method offsets, the fixed-interval
/// Isha and the manual fine-tuning. Events whose solar time is undefined stay
/// absent.
pub fn place_events(midnight: i64, raw: &PrayerMap<i32>, params: &CalculationParameters) -> (t:
    PrayerTimes)
    requires
        valid_instant(midnight as int),
        events_in_range(midnight, *raw, *params),
    ensures
        is_placement(midnight, *raw, *params, t),
        t.wf(),
{
    let mut times: PrayerMap<i64> = PrayerMap::new();
    let mut i: usize = 0;
    while i < 6
        invariant
            i <= 6,
            valid_instant(midnight as int),
            events_in_range(midnight, *raw, *params),
            forall|p: Prayer| #[trigger]
                times.slot(p) == if spec_day_order(p) < i {
                    match spec_event_instant(midnight, *raw, *params, p) {
                        Some(x) => Some(x as i64),
                        None => None,
                    }
                } else {
                    None
                },
        decreases 6 - i,
    {
        let p = Prayer::at_index(i);
        match event_minutes(raw, params, p) {
            Some(m) => {
                assert(spec_event_instant(midnight, *raw, *params, p) == Some(midnight + 60 * m));
                assert(valid_instant(midnight + 60 * m));
                times.insert(p, midnight + 60 * m);
            },
            None => {},
        }
        i = i + 1;
    }
    PrayerTimes::new(midnight, times)
}

/// Place the day's events as [`place_events`] does, or `None` when local
/// midnight or some event falls outside the representable calendar range.
pub fn try_place_events(midnight: i64, raw: &PrayerMap<i32>, params: &CalculationParameters) -> (r:
    Option<PrayerTimes>)
    ensures
        r is Some <==> valid_instant(midnight as int) && events_in_range(midnight, *raw, *params),
        r matches Some(t) ==> is_placement(midnight, *raw, *params, t) && t.wf(),
{
    if midnight < MIN_INSTANT || midnight > MAX_INSTANT {
        return None;
    }
    let mut i: usize = 0;
    while i < 6
        invariant
            i <= 6,
            valid_instant(midnight as int),
            forall|p: Prayer|
                spec_day_order(p) < i ==> (#[trigger] spec_event_instant(midnight, *raw, *params, p)
                    matches Some(t) ==> valid_instant(t)),
        decreases 6 - i,
    {
        let p = Prayer::at_index(i);
        match event_minutes(raw, params, p) {
            Some(m) => {
                let t = midnight as i128 + 60 * (m as i128);
                if t < MIN_INSTANT as i128 || t > MAX_INSTANT as i128 {
                    assert(!valid_instant(spec_event_instant(midnight, *raw, *params, p)->0));
                    return None;
                }
            },
            None => {},
        }
        i = i + 1;
    }
    assert forall|p: Prayer| #[trigger]
        spec_event_instant(midnight, *raw, *params, p) is Some implies valid_instant(
            spec_event_instant(midnight, *raw, *params, p)->0,
        ) by {
        crate::prayer::lemma_prayer_at_day_order(p);
    }
    Some(place_events(midnight, raw, params))
}

/// Law: a manual offset moves only its own prayer, by exactly its minutes:
/// replacing `p`'s offset by `k` shifts `p` by `k` minus the old offset and
/// leaves every other event where it was.
pub proof fn lemma_manual_offset_moves_only_its_prayer(
    raw: PrayerMap<i32>,
    params: CalculationParameters,
    p: Prayer,
    k: i32,
)
    ensures
        ({
            let tuned = CalculationParameters {
                manual_offsets: params.manual_offsets.with(p, k),
                ..params
            };
            &&& forall|q: Prayer|
                q != p ==> #[trigger] spec_event_minutes(raw, tuned, q) == spec_event_minutes(
                    raw,
                    params,
                    q,
                )
            &&& match (spec_event_minutes(raw, params, p), spec_event_minutes(raw, tuned, p)) {
                (Some(a), Some(b)) => b == a - params.manual_offset(p) + k,
                (None, None) => true,
                _ => false,
            }
        }),
{
    params.manual_offsets.lemma_with(p, k);
}

/// Law: the method's Dhuhr and Asr offsets move Dhuhr and Asr by exactly
/// their minutes and nothing else.
pub proof fn lemma_dhuhr_asr_offsets_exact(
    raw: PrayerMap<i32>,
    params: CalculationParameters,
    dhuhr: i32,
    asr: i32,
)
    ensures
        ({
            let shifted = CalculationParameters {
                dhuhr_offset_minutes: dhuhr,
                asr_offset_minutes: asr,
                ..params
            };
            &&& forall|q: Prayer|
                q != Prayer::Dhuhr && q != Prayer::Asr ==> #[trigger] spec_event_minutes(
                    raw,
                    shifted,
                    q,
                ) == spec_event_minutes(raw, params, q)
            &&& match (
                spec_event_minutes(raw, params, Prayer::Dhuhr),
                spec_event_minutes(raw, shifted, Prayer::Dhuhr),
            ) {
                (Some(a), Some(b)) => b - a == dhuhr - params.dhuhr_offset_minutes,
                (None, None) => true,
                _ => false,
            }
            &&& match (
                spec_event_minutes(raw, params, Prayer::Asr),
                spec_event_minutes(raw, shifted, Prayer::Asr),
            ) {
                (Some(a), Some(b)) => b - a == asr - params.asr_offset_minutes,
                (None, None) => true,
                _ => false,
            }
        }),
{
}

/// Law: with a fixed Isha interval, Isha falls exactly that many minutes after
/// Maghrib, corrected by the difference of their manual offsets, and is absent
/// exactly when Maghrib is.
pub proof fn lemma_fixed_isha_follows_maghrib(
    midnight: i64,
    raw: PrayerMap<i32>,
    params: CalculationParameters,
)
    requires
        params.isha_fixed_minutes is Some,
    ensures
        match (
            spec_event_instant(midnight, raw, params, Prayer::Maghrib),
            spec_event_instant(midnight, raw, params, Prayer::Isha),
        ) {
            (Some(m), Some(i)) => i - m == 60 * (params.isha_fixed_minutes->0 + params.manual_offset(
                Prayer::Isha,
            ) - params.manual_offset(Prayer::Maghrib)),
            (None, None) => true,
            _ => false,
        },
{
}

/// Law: with a fixed Isha interval the fixed interval wins: no event depends
/// on the Isha angle or on Isha's own solar time. Parameters that differ only
/// in the Isha angle, and solar times that differ only for Isha, place every
/// event at the same instant.
pub proof fn lemma_fixed_isha_ignores_isha_angle(
    midnight: i64,
    raw: PrayerMap<i32>,
    other_raw: PrayerMap<i32>,
    params: CalculationParameters,
    isha_angle: Option<i32>,
)
    requires
        params.isha_fixed_minutes is Some,
        forall|q: Prayer| q != Prayer::Isha ==> #[trigger] other_raw.slot(q) == raw.slot(q),
    ensures
        forall|q: Prayer| #[trigger]
            spec_event_instant(
                midnight,
                other_raw,
                CalculationParameters { isha_angle, ..params },
                q,
            ) == spec_event_instant(midnight, raw, params, q),
{
    assert(other_raw.slot(Prayer::Maghrib) == raw.slot(Prayer::Maghrib));
    assert(other_raw.slot(Prayer::Fajr) == raw.slot(Prayer::Fajr));
    assert(other_raw.slot(Prayer::Sunrise) == raw.slot(Prayer::Sunrise));
    assert(other_raw.slot(Prayer::Dhuhr) == raw.slot(Prayer::Dhuhr));
    assert(other_raw.slot(Prayer::Asr) == raw.slot(Prayer::Asr));
}

/// The Julian day number (the Julian Date at noon UTC) of a proleptic
/// Gregorian civil date, by the Meeus formula with January and February
/// counted as months 13 and 14 of the previous year. The Julian Date at 00:00
/// UTC of that day is this number minus one half.
pub open spec fn spec_julian_day_number(year: int, month: int, day: int) -> int {
    let y = if month <= 2 {
        year - 1
    } else {
        year
    };
    let m = if month <= 2 {
        month + 12
    } else {
        month
    };
    let a = y / 100;
    let b = 2 - a + a / 4;
    (1461 * (y + 4716)) / 4 + (306001 * (m + 1)) / 10000 + day + b - 1524
}

/// Law: the Julian day number counts days. The next day of a month has the
/// next number; the Gregorian calendar repeats every 400 years, which hold
/// exactly 146097 days; and 2000-01-01 is day 2451545 (the J2000 epoch).
pub proof fn lemma_julian_day_number_counts_days(year: int, month: int, day: int)
    requires
        1 <= month <= 12,
    ensures
        spec_julian_day_number(year, month, day + 1) == spec_julian_day_number(year, month, day)
            + 1,
        spec_julian_day_number(year + 400, month, day) == spec_julian_day_number(year, month, day)
            + 146097,
        spec_julian_day_number(2000, 1, 1) == 2451545,
{
    let y = if month <= 2 {
        year - 1
    } else {
        year
    };
    assert((y + 400) / 100 == y / 100 + 4) by (nonlinear_arith);
    assert((y / 100 + 4) / 4 == (y / 100) / 4 + 1) by (nonlinear_arith);
    assert((1461 * (y + 400 + 4716)) / 4 == (1461 * (y + 4716)) / 4 + 146100) by (nonlinear_arith);
    assert(spec_julian_day_number(2000, 1, 1) == 2451545);
}

/// The Julian day number of a civil date (see [`spec_julian_day_number`]).
pub fn julian_day_number(year: i32, month: i32, day: i32) -> (r: i64)
    requires
        1 <= month <= 12,
    ensures
        r == spec_julian_day_number(year as int, month as int, day as int),
{
    let mut y = year as i64;
    let mut m = month as i64;
    if m <= 2 {
        y = y - 1;
        m = m + 12;
    }
    let a = floor_div(y, 100);
    let b = 2 - a + floor_div(a, 4);
    floor_div(1461 * (y + 4716), 4) + floor_div(306001 * (m + 1), 10000) + day as i64 + b - 1524
}

} // verus!
