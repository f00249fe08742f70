//! Value-type model logic: next/current prayer selection, ordering, and sound
//! metadata.

use prayer_core::{NotificationSound, Prayer, PrayerMap, PrayerTimes};

fn sample_times() -> PrayerTimes {
    let base: i64 = 1_700_000_000; // fixed anchor
    let at = |h: f64| base + (h * 3600.0) as i64;
    let mut times = PrayerMap::new();
    times.insert(Prayer::Fajr, at(5.0));
    times.insert(Prayer::Sunrise, at(6.5));
    times.insert(Prayer::Dhuhr, at(12.0));
    times.insert(Prayer::Asr, at(15.0));
    times.insert(Prayer::Maghrib, at(18.0));
    times.insert(Prayer::Isha, at(19.5));
    PrayerTimes::new(base, times)
}

fn plus_hours(t: &PrayerTimes, h: f64) -> i64 {
    t.date + (h * 3600.0) as i64
}

#[test]
fn next_after_picks_earliest_future_prayer() {
    let t = sample_times();
    let now = plus_hours(&t, 13.0); // between Dhuhr and Asr
    assert_eq!(t.next(now).map(|(p, _)| p), Some(Prayer::Asr));
}

#[test]
fn next_after_returns_none_when_all_past() {
    let t = sample_times();
    let now = plus_hours(&t, 23.0);
    assert!(t.next(now).is_none());
}

#[test]
fn current_at_picks_most_recent_past() {
    let t = sample_times();
    let now = plus_hours(&t, 18.5); // just after Maghrib
    assert_eq!(t.current(now).map(|(p, _)| p), Some(Prayer::Maghrib));
}

#[test]
fn current_at_returns_none_before_fajr() {
    let t = sample_times();
    let now = plus_hours(&t, 3.0);
    assert!(t.current(now).is_none());
}

#[test]
fn ordered_is_chronological() {
    let order: Vec<Prayer> = sample_times().ordered().into_iter().map(|(p, _)| p).collect();
    assert_eq!(
        order,
        vec![
            Prayer::Fajr,
            Prayer::Sunrise,
            Prayer::Dhuhr,
            Prayer::Asr,
            Prayer::Maghrib,
            Prayer::Isha
        ]
    );
}

#[test]
fn obligatory_excludes_sunrise() {
    assert_eq!(
        Prayer::OBLIGATORY,
        [Prayer::Fajr, Prayer::Dhuhr, Prayer::Asr, Prayer::Maghrib, Prayer::Isha]
    );
    assert!(!Prayer::Sunrise.is_obligatory());
    assert!(Prayer::Dhuhr.is_obligatory());
}

#[test]
fn notification_sound_metadata() {
    assert!(NotificationSound::AdhanMakkah.has_full_adhan());
    assert!(!NotificationSound::SoftChime.has_full_adhan());
    assert_eq!(
        NotificationSound::AdhanMakkah.full_adhan_file_name(),
        Some("adhan-makkah.m4a")
    );
    assert_eq!(
        NotificationSound::AdhanMakkah.notification_clip_file_name(),
        Some("takbir.caf")
    );
    assert_eq!(NotificationSound::Silent.notification_clip_file_name(), None);
}

#[test]
fn ordered_sorts_by_time_not_insertion() {
    let mut times = PrayerMap::new();
    times.insert(Prayer::Isha, 50);
    times.insert(Prayer::Fajr, 30);
    times.insert(Prayer::Dhuhr, 30);
    times.insert(Prayer::Asr, 10);
    let t = PrayerTimes::new(0, times);
    // Equal instants keep the day's order (Fajr before Dhuhr).
    assert_eq!(
        t.ordered(),
        vec![(Prayer::Asr, 10), (Prayer::Fajr, 30), (Prayer::Dhuhr, 30), (Prayer::Isha, 50)]
    );
}

#[test]
fn next_and_current_break_ties_by_day_order() {
    let mut times = PrayerMap::new();
    times.insert(Prayer::Maghrib, 100);
    times.insert(Prayer::Dhuhr, 100);
    let t = PrayerTimes::new(0, times);
    // The first in the day among equal next instants, the last among equal past ones.
    assert_eq!(t.next(50), Some((Prayer::Dhuhr, 100)));
    assert_eq!(t.current(100), Some((Prayer::Maghrib, 100)));
}

#[test]
fn day_order_and_all() {
    assert_eq!(Prayer::ALL.len(), 6);
    for (i, p) in Prayer::ALL.iter().enumerate() {
        assert_eq!(p.day_order() as usize, i);
    }
    assert!(Prayer::Fajr < Prayer::Isha);
}

#[test]
fn sound_without_clip() {
    assert_eq!(NotificationSound::SystemDefault.notification_clip_file_name(), None);
    assert_eq!(NotificationSound::SoftChime.notification_clip_file_name(), Some("soft-chime.caf"));
    assert_eq!(NotificationSound::AdhanMadinah.full_adhan_file_name(), Some("adhan-madinah.m4a"));
    assert_eq!(NotificationSound::Takbir.full_adhan_file_name(), None);
}
