//! AppSettings defaults and notification resolution.

use prayer_core::{
    default_jamaat_times, AppSettings, FocusTrigger, NotificationDefaults, NotificationSound,
    Prayer, PrayerNotificationConfig, FALLBACK_EARLY_LEAD_MINUTES,
};

#[test]
fn default_notifications_match_product_examples() {
    let s = AppSettings::default();
    assert_eq!(s.notifications.len(), 6);
    assert_eq!(s.notifications.get(Prayer::Dhuhr).unwrap().early_lead_minutes_override, Some(20));
    assert!(s.notifications.get(Prayer::Dhuhr).unwrap().early_reminder_enabled);
    assert_eq!(s.notifications.get(Prayer::Maghrib).unwrap().early_lead_minutes_override, Some(10));
    assert!(!s.notifications.get(Prayer::Sunrise).unwrap().notify);
}

#[test]
fn resolved_notification_inherits_defaults() {
    let mut s = AppSettings {
        notification_defaults: NotificationDefaults {
            sound: NotificationSound::AdhanMakkah,
            early_reminder_minutes: 10,
            iqamah_offset_minutes: 5,
            play_full_adhan: false,
        },
        ..AppSettings::default()
    };
    // Asr inherits everything (only the reminder toggle is set).
    s.notifications.insert(
        Prayer::Asr,
        PrayerNotificationConfig { early_reminder_enabled: true, ..Default::default() },
    );
    let asr = s.resolved_notification(Prayer::Asr);
    assert_eq!(asr.sound, NotificationSound::AdhanMakkah);
    assert_eq!(asr.early_lead_minutes, 10);
    assert_eq!(asr.iqamah_offset_minutes, 5);
    assert!(asr.early_reminder_enabled);

    // Fajr overrides the sound and lead; iqamah still inherits.
    s.notifications.insert(
        Prayer::Fajr,
        PrayerNotificationConfig {
            early_reminder_enabled: true,
            sound_override: Some(NotificationSound::Takbir),
            early_lead_minutes_override: Some(30),
            ..Default::default()
        },
    );
    let fajr = s.resolved_notification(Prayer::Fajr);
    assert_eq!(fajr.sound, NotificationSound::Takbir);
    assert_eq!(fajr.early_lead_minutes, 30);
    assert_eq!(fajr.iqamah_offset_minutes, 5);

    // Sunrise never carries Adhan or iqamah, even if asked.
    s.notifications.insert(
        Prayer::Sunrise,
        PrayerNotificationConfig { play_full_adhan: true, ..Default::default() },
    );
    let sunrise = s.resolved_notification(Prayer::Sunrise);
    assert!(!sunrise.play_full_adhan);
    assert_eq!(sunrise.iqamah_offset_minutes, 0);
}

#[test]
fn non_positive_lead_falls_back() {
    let mut s = AppSettings::default();
    // Isha has no override and the default lead is 0.
    assert_eq!(s.early_lead_minutes(Prayer::Isha), 0);
    assert_eq!(s.resolved_notification(Prayer::Isha).early_lead_minutes, FALLBACK_EARLY_LEAD_MINUTES);
    s.notifications.insert(
        Prayer::Isha,
        PrayerNotificationConfig { early_lead_minutes_override: Some(-4), ..Default::default() },
    );
    assert_eq!(s.early_lead_minutes(Prayer::Isha), -4);
    assert_eq!(s.resolved_notification(Prayer::Isha).early_lead_minutes, 15);
}

#[test]
fn negative_iqamah_is_clamped() {
    let mut s = AppSettings::default();
    s.notifications.insert(
        Prayer::Dhuhr,
        PrayerNotificationConfig { iqamah_offset_minutes_override: Some(-7), ..Default::default() },
    );
    assert_eq!(s.resolved_notification(Prayer::Dhuhr).iqamah_offset_minutes, 0);
}

#[test]
fn settings_defaults() {
    let s = AppSettings::default();
    assert_eq!(s.method_id, "mwl");
    assert_eq!(s.azan_before_jamaat, 15);
    assert_eq!(s.focus_duration_minutes, 15);
    assert!(s.manual_keep_waqt);
    assert!(!s.did_complete_onboarding);
    let j = default_jamaat_times();
    assert_eq!(j.get(Prayer::Fajr), Some(&300));
    assert_eq!(j.get(Prayer::Dhuhr), Some(&810));
    assert_eq!(j.get(Prayer::Sunrise), None);
    assert_eq!(j.len(), 5);
    assert_eq!(s.jamaat_times, j);
}

#[test]
fn focus_trigger_rules() {
    assert!(FocusTrigger::Obligatory.includes(Prayer::Asr));
    assert!(!FocusTrigger::Obligatory.includes(Prayer::Sunrise));
    assert!(FocusTrigger::All.includes(Prayer::Sunrise));
    assert!(FocusTrigger::FajrIsha.includes(Prayer::Isha));
    assert!(!FocusTrigger::FajrIsha.includes(Prayer::Dhuhr));
}
