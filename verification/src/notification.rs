//! Per-prayer notification configuration with default inheritance.

use vstd::prelude::*;

use crate::notification_sound::NotificationSound;

verus! {

/// App-wide notification defaults, applied to every prayer unless a
/// per-prayer override is set.
#[derive(Debug, Clone, Copy, PartialEq, Eq, Structural)]
pub struct NotificationDefaults {
    pub sound: NotificationSound,
    pub play_full_adhan: bool,
    /// Minutes before the prayer for the early reminder; 0 = off.
    pub early_reminder_minutes: i32,
    /// Minutes after the prayer for the iqamah alert; 0 = off.
    pub iqamah_offset_minutes: i32,
}

/// The app-wide defaults: Takbir, no full Adhan, no reminder lead, no iqamah.
pub open spec fn spec_default_notification_defaults() -> NotificationDefaults {
    NotificationDefaults {
        sound: NotificationSound::Takbir,
        play_full_adhan: false,
        early_reminder_minutes: 0,
        iqamah_offset_minutes: 0,
    }
}

impl Default for NotificationDefaults {
    fn default() -> (r: Self)
        ensures
            r == spec_default_notification_defaults(),
    {
        NotificationDefaults {
            sound: NotificationSound::Takbir,
            play_full_adhan: false,
            early_reminder_minutes: 0,
            iqamah_offset_minutes: 0,
        }
    }
}

/// Per-prayer notification configuration. The three booleans map to the
/// Notify / Adhan / Remind matrix columns; the three optionals are overrides
/// that fall back to [`NotificationDefaults`] when `None`.
#[derive(Debug, Clone, Copy, PartialEq, Eq, Structural)]
pub struct PrayerNotificationConfig {
    pub notify: bool,
    pub play_full_adhan: bool,
    pub early_reminder_enabled: bool,
    pub sound_override: Option<NotificationSound>,
    pub early_lead_minutes_override: Option<i32>,
    pub iqamah_offset_minutes_override: Option<i32>,
}

/// A prayer's default configuration: notify, nothing else, no overrides.
pub open spec fn spec_default_prayer_config() -> PrayerNotificationConfig {
    PrayerNotificationConfig {
        notify: true,
        play_full_adhan: false,
        early_reminder_enabled: false,
        sound_override: None,
        early_lead_minutes_override: None,
        iqamah_offset_minutes_override: None,
    }
}

impl Default for PrayerNotificationConfig {
    fn default() -> (r: Self)
        ensures
            r == spec_default_prayer_config(),
    {
        PrayerNotificationConfig {
            notify: true,
            play_full_adhan: false,
            early_reminder_enabled: false,
            sound_override: None,
            early_lead_minutes_override: None,
            iqamah_offset_minutes_override: None,
        }
    }
}

/// The fully-resolved notification behaviour for one prayer, after merging the
/// per-prayer config over the app defaults: what the scheduler consumes.
#[derive(Debug, Clone, Copy, PartialEq, Eq, Structural)]
pub struct ResolvedNotification {
    pub notify: bool,
    pub sound: NotificationSound,
    pub play_full_adhan: bool,
    pub early_reminder_enabled: bool,
    pub early_lead_minutes: i32,
    pub iqamah_offset_minutes: i32,
}

} // verus!
