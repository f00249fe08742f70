//! Concrete checks of the library's laws and formulas: placing events on the
//! time line, the Julian day number, the live clock and its tray label,
//! notification delivery, and the registry's parameter resolution.

use prayer_core::audio::AudioCommand;
use prayer_core::clock::{clock_can_hold, short_countdown, Clock};
use prayer_core::delivery::{
    plan_delivery, BannerSound, DeliveryPlan, FocusCue, NotifEvent, Playback, AUDIO_STALE_MS,
};
use prayer_core::location::detected_from_reply;
use prayer_core::engine::{julian_day_number, place_events, try_place_events};
use prayer_core::prayer_times::{MAX_INSTANT, MIN_INSTANT};
use prayer_core::{
    AppSettings, CalculationMethodAdapter, CalculationParameters, Coordinates, FocusBlurIntensity,
    MethodRegistry, MwlAdapter, NotificationSound, Prayer, PrayerMap, PrayerTimes,
};

/// Solar times in minutes from midnight for an ordinary day.
fn raw_day() -> PrayerMap<i32> {
    let mut raw = PrayerMap::new();
    raw.insert(Prayer::Fajr, 300);
    raw.insert(Prayer::Sunrise, 390);
    raw.insert(Prayer::Dhuhr, 720);
    raw.insert(Prayer::Asr, 930);
    raw.insert(Prayer::Maghrib, 1080);
    raw.insert(Prayer::Isha, 1170);
    raw
}

const MIDNIGHT: i64 = 1_780_876_800; // 2026-06-08T00:00:00Z

#[test]
fn place_events_applies_offsets_in_whole_minutes() {
    let mut params = CalculationParameters::new(18_000);
    params.dhuhr_offset_minutes = 5;
    params.asr_offset_minutes = 4;
    params.manual_offsets.insert(Prayer::Maghrib, 2);
    params.manual_offsets.insert(Prayer::Fajr, -3);
    let t = place_events(MIDNIGHT, &raw_day(), &params);
    assert_eq!(t.date, MIDNIGHT);
    assert_eq!(t.get(Prayer::Fajr), Some(MIDNIGHT + 297 * 60));
    assert_eq!(t.get(Prayer::Sunrise), Some(MIDNIGHT + 390 * 60));
    assert_eq!(t.get(Prayer::Dhuhr), Some(MIDNIGHT + 725 * 60));
    assert_eq!(t.get(Prayer::Asr), Some(MIDNIGHT + 934 * 60));
    assert_eq!(t.get(Prayer::Maghrib), Some(MIDNIGHT + 1082 * 60));
    assert_eq!(t.get(Prayer::Isha), Some(MIDNIGHT + 1170 * 60));
}

#[test]
fn fixed_isha_follows_maghrib() {
    let mut params = CalculationParameters::new(18_500);
    params.isha_fixed_minutes = Some(90);
    let t = place_events(MIDNIGHT, &raw_day(), &params);
    assert_eq!(t.get(Prayer::Isha).unwrap() - t.get(Prayer::Maghrib).unwrap(), 90 * 60);
}

#[test]
fn undefined_event_stays_absent() {
    let mut raw = raw_day();
    let mut without_isha = PrayerMap::new();
    for p in Prayer::ALL {
        if p != Prayer::Isha {
            without_isha.insert(p, *raw.get(p).unwrap());
        }
    }
    raw = without_isha;
    let t = place_events(MIDNIGHT, &raw, &CalculationParameters::new(18_000));
    assert_eq!(t.get(Prayer::Isha), None);
    assert_eq!(t.get(Prayer::Maghrib), Some(MIDNIGHT + 1080 * 60));
}

#[test]
fn try_place_events_refuses_out_of_range() {
    let params = CalculationParameters::new(18_000);
    assert!(try_place_events(MIDNIGHT, &raw_day(), &params).is_some());
    assert!(try_place_events(MAX_INSTANT, &raw_day(), &params).is_none());
    assert!(try_place_events(MIN_INSTANT - 1, &raw_day(), &params).is_none());
    let placed = try_place_events(MIDNIGHT, &raw_day(), &params).unwrap();
    assert_eq!(placed, place_events(MIDNIGHT, &raw_day(), &params));
}

#[test]
fn julian_day_numbers() {
    assert_eq!(julian_day_number(2000, 1, 1), 2_451_545);
    assert_eq!(julian_day_number(1970, 1, 1), 2_440_588);
    assert_eq!(julian_day_number(2024, 3, 1), 2_460_371);
    assert_eq!(julian_day_number(2024, 2, 29), 2_460_370);
}

#[test]
fn countdown_text() {
    assert_eq!(short_countdown(12_300), "3h 25m");
    assert_eq!(short_countdown(3_600), "1h 0m");
    assert_eq!(short_countdown(125), "2m");
    assert_eq!(short_countdown(45), "45s");
    assert_eq!(short_countdown(-5), "0s");
}

fn day(offset: i64) -> PrayerTimes {
    place_events(MIDNIGHT + offset * 86_400, &raw_day(), &CalculationParameters::new(18_000))
}

fn ms(offset_day: i64, minutes: i64) -> i64 {
    (MIDNIGHT + offset_day * 86_400 + minutes * 60) * 1000
}

#[test]
fn clock_label_and_emit_throttle() {
    assert!(clock_can_hold(&day(0)));
    let mut clock = Clock::new(day(0), day(1), ms(0, 240), 0);
    assert_eq!(clock.next_event(), Some((Prayer::Fajr, MIDNIGHT + 300 * 60)));
    assert_eq!(clock.seconds_until_next(), 3_600);
    assert_eq!(clock.tray_label(), "Fajr in 1h 0m");
    assert_eq!(clock.next_prayer_label(), "Fajr");
    assert!(clock.should_emit());
    assert!(!clock.should_emit());

    // Same day, same upcoming prayer: nothing to re-render.
    assert!(!clock.tick(ms(0, 250), 0));
    assert!(!clock.should_emit());
    assert_eq!(clock.tray_label(), "Fajr in 50m");

    // Fajr passed: the upcoming prayer changed.
    assert!(!clock.tick(ms(0, 301), 0));
    assert!(clock.should_emit());
    assert_eq!(clock.signature(), (0, Some(Prayer::Sunrise)));

    // After Isha the next event is tomorrow's Fajr.
    clock.tick(ms(0, 1200), 0);
    assert_eq!(clock.next_event(), Some((Prayer::Fajr, MIDNIGHT + 86_400 + 300 * 60)));

    // A new day rolls over; new times force a refresh.
    assert!(clock.tick(ms(1, 10), 1));
    clock.set_times(day(1), day(2));
    assert!(clock.should_emit());
    assert!(!clock.should_emit());
}

#[test]
fn clock_panel_times() {
    let clock = Clock::new(day(0), day(1), ms(0, 400), 0);
    let panel = clock.panel_times();
    assert_eq!(panel.ishraq_ms, Some(ms(0, 405)));
    let next = panel.next.unwrap();
    assert_eq!(next.prayer, "dhuhr");
    assert_eq!(next.at_ms, ms(0, 720));
    let waqt = panel.current_waqt.unwrap();
    assert_eq!(waqt.prayer, "sunrise");
    assert_eq!(waqt.end_ms, ms(0, 720));
    assert!(!waqt.is_obligatory);
    let keys: Vec<&str> = panel.times.iter().map(|t| t.prayer).collect();
    assert_eq!(keys, vec!["fajr", "sunrise", "dhuhr", "asr", "maghrib", "isha"]);
    assert_eq!(panel.times[0].at_ms, ms(0, 300));
}

#[test]
fn clock_without_times_has_generic_label() {
    let empty = PrayerTimes::new(MIDNIGHT, PrayerMap::new());
    let clock = Clock::new(empty.clone(), empty, ms(0, 10), 0);
    assert_eq!(clock.next_event(), None);
    assert_eq!(clock.seconds_until_next(), 0);
    assert_eq!(clock.tray_label(), "Prayer Times");
    assert_eq!(clock.next_prayer_label(), "Prayer");
}

fn event(sound: NotificationSound, full: bool, fire_ms: i64) -> NotifEvent {
    NotifEvent {
        fire_ms,
        title: "Dhuhr".to_string(),
        body: "It is time for Dhuhr".to_string(),
        sound,
        play_full_adhan: full,
        madinah: true,
        focus: None,
    }
}

#[test]
fn delivery_never_doubles_audio() {
    let now = 1_000_000;
    let plan = plan_delivery(&event(NotificationSound::AdhanMakkah, false, now), now);
    assert_eq!(
        plan,
        DeliveryPlan {
            banner_sound: BannerSound::Silent,
            playback: Some(Playback::Sound(NotificationSound::AdhanMakkah)),
            announce_adhan: true,
            engage_focus: false,
        }
    );
    let chime = plan_delivery(&event(NotificationSound::SoftChime, false, now), now);
    assert_eq!(chime.banner_sound, BannerSound::Silent);
    assert!(!chime.announce_adhan);
    let os = plan_delivery(&event(NotificationSound::SystemDefault, false, now), now);
    assert_eq!(os.banner_sound, BannerSound::SystemDefault);
    assert_eq!(os.playback, None);
    let silent = plan_delivery(&event(NotificationSound::Silent, false, now), now);
    assert_eq!(silent.banner_sound, BannerSound::Unset);
    assert_eq!(silent.playback, None);
}

#[test]
fn delivery_full_adhan_and_staleness() {
    let now = 5_000_000;
    let full = plan_delivery(&event(NotificationSound::Silent, true, now - 1_000), now);
    assert_eq!(full.playback, Some(Playback::FullAdhan { madinah: true }));
    assert!(full.announce_adhan);
    assert_eq!(full.banner_sound, BannerSound::Silent);

    // Exactly at the staleness limit audio still plays; one past it, it does not.
    let edge = plan_delivery(&event(NotificationSound::Takbir, false, now - AUDIO_STALE_MS), now);
    assert!(edge.playback.is_some());
    let stale =
        plan_delivery(&event(NotificationSound::SystemDefault, true, now - AUDIO_STALE_MS - 1), now);
    assert_eq!(stale.playback, None);
    assert!(!stale.announce_adhan);
    assert_eq!(stale.banner_sound, BannerSound::SystemDefault);
}

#[test]
fn delivery_engages_focus_with_cue() {
    let settings = AppSettings::default();
    let cue = FocusCue::from_settings(&settings, "Asr".to_string());
    assert_eq!(cue.duration_minutes, 15);
    assert_eq!(cue.blur, FocusBlurIntensity::Medium);
    assert!(cue.emergency_exit);
    let mut ev = event(NotificationSound::Silent, false, 0);
    ev.focus = Some(cue);
    assert!(plan_delivery(&ev, 0).engage_focus);
}

fn dhaka() -> Coordinates {
    Coordinates::new(23_810_300, 90_412_500)
}

#[test]
fn registry_parameters_and_names() {
    assert_eq!(MethodRegistry::parameters_for("isna", false, dhaka()).fajr_angle, 15_000);
    let hanafi = MethodRegistry::parameters_for("karachi", true, dhaka());
    assert_eq!(hanafi.asr_shadow_factor, 2_000);
    assert_eq!(hanafi.isha_angle, Some(18_000));
    assert_eq!(
        MethodRegistry::parameters_for("nope", true, dhaka()),
        MwlAdapter.resolve(dhaka())
    );
    assert_eq!(
        MethodRegistry::parameters_for("manual", false, dhaka()),
        MwlAdapter.resolve(dhaka())
    );
    assert_eq!(
        MethodRegistry::display_name_for("karachi", true),
        "University of Islamic Sciences, Karachi (Hanafi)"
    );
    assert_eq!(MethodRegistry::display_name_for("nope", false), "Muslim World League");
}

#[test]
fn country_codes_are_case_insensitive() {
    assert_eq!(MethodRegistry::method_id_for_country(Some("us")), "isna");
    assert_eq!(MethodRegistry::method_id_for_country(Some("Tr")), "diyanet");
    assert_eq!(MethodRegistry::method_id_for_country(Some("bd")), "karachi");
    assert_eq!(MethodRegistry::method_id_for_country(Some("id")), "kemenag");
    assert_eq!(MethodRegistry::method_id_for_country(Some("zz")), "mwl");
    assert_eq!(MethodRegistry::method_id_for_country(None), "mwl");
}

#[test]
fn detected_location_is_taken_over() {
    let mut s = AppSettings::default();
    s.auto_detect_method = true;
    s.timezone_override = Some("Asia/Dhaka".to_string());
    s.apply_detected_location(dhaka(), Some("my"), None);
    assert_eq!(s.manual_coordinates, Some(dhaka()));
    assert_eq!(s.timezone_override, Some("Asia/Dhaka".to_string()));
    assert_eq!(s.method_id, "jakim");

    let mut manual = AppSettings::default();
    manual.method_id = "karachi".to_string();
    manual.apply_detected_location(dhaka(), Some("US"), Some("America/New_York".to_string()));
    assert_eq!(manual.method_id, "karachi");
    assert_eq!(manual.timezone_override, Some("America/New_York".to_string()));
    assert!(manual.show_hijri_date);
}

#[test]
fn audio_commands_are_exact() {
    assert_eq!(
        AudioCommand::play(NotificationSound::Takbir),
        AudioCommand::Play { sound: NotificationSound::Takbir }
    );
    assert_eq!(AudioCommand::full_adhan(true), AudioCommand::PlayFullAdhan { madinah: true });
    assert_eq!(AudioCommand::stop(), AudioCommand::Stop);
    assert_eq!(
        AudioCommand::for_playback(Playback::FullAdhan { madinah: false }),
        AudioCommand::PlayFullAdhan { madinah: false }
    );
    assert_eq!(
        AudioCommand::for_playback(Playback::Sound(NotificationSound::SoftChime)),
        AudioCommand::Play { sound: NotificationSound::SoftChime }
    );
}

#[test]
fn location_reply_is_interpreted() {
    let ok = detected_from_reply(
        true,
        None,
        Some(23_810_300),
        Some(90_412_500),
        Some("BD".to_string()),
        Some("Asia/Dhaka".to_string()),
    );
    let d = ok.ok().unwrap();
    assert_eq!(d.coords, dhaka());
    assert_eq!(d.country_code.as_deref(), Some("BD"));
    assert_eq!(d.tz.as_deref(), Some("Asia/Dhaka"));

    let refused = detected_from_reply(false, Some("Reserved range".to_string()), None, None, None, None);
    assert_eq!(refused.err().unwrap(), "Reserved range");
    let silent = detected_from_reply(false, None, Some(1), Some(2), None, None);
    assert_eq!(silent.err().unwrap(), "Location lookup failed");
    let partial = detected_from_reply(true, None, Some(1), None, None, None);
    assert_eq!(partial.err().unwrap(), "Location response was missing coordinates");
}

#[test]
fn fixed_isha_wins_over_isha_angle() {
    let mut params = CalculationParameters::new(18_500);
    params.isha_fixed_minutes = Some(90);
    params.isha_angle = Some(18_000);
    params.manual_offsets.insert(Prayer::Isha, 3);
    params.manual_offsets.insert(Prayer::Maghrib, 1);
    let t = place_events(MIDNIGHT, &raw_day(), &params);
    assert_eq!(t.get(Prayer::Isha).unwrap() - t.get(Prayer::Maghrib).unwrap(), (90 + 3 - 1) * 60);

    let mut other_raw = raw_day();
    other_raw.insert(Prayer::Isha, 1_300);
    let mut no_angle = params;
    no_angle.isha_angle = None;
    assert_eq!(place_events(MIDNIGHT, &other_raw, &no_angle), t);
}
