//! The persisted application configuration and its display/notification enums.

use vstd::prelude::*;

use crate::coordinates::Coordinates;
use crate::high_latitude::HighLatitudeRule;
use crate::notification::{
    spec_default_notification_defaults, spec_default_prayer_config, NotificationDefaults,
    PrayerNotificationConfig, ResolvedNotification,
};
use crate::params::CalculationParameters;
use crate::prayer::Prayer;
use crate::prayer_map::PrayerMap;

verus! {

/// Menu-bar label content.
#[derive(Debug, Clone, Copy, PartialEq, Eq, Structural, Hash)]
pub enum MenuBarStyle {
    IconOnly,
    CountdownOnly,
    IconCountdown,
    NextPrayerCountdown,
    IconNameCountdown,
    NextPrayerClock,
    IconNameClock,
}

/// What the menu-bar countdown counts toward.
#[derive(Debug, Clone, Copy, PartialEq, Eq, Structural)]
pub enum MenuBarCountdownMode {
    NextPrayer,
    CurrentWaqt,
}

/// Strength of the Focus Mode backdrop blur.
#[derive(Debug, Clone, Copy, PartialEq, Eq, Structural)]
pub enum FocusBlurIntensity {
    Low,
    Medium,
    High,
    Opaque,
}

/// Which prayers engage Focus Mode.
#[derive(Debug, Clone, Copy, PartialEq, Eq, Structural)]
pub enum FocusTrigger {
    Obligatory,
    All,
    FajrIsha,
}

impl FocusTrigger {
    /// Whether `prayer` engages Focus Mode under this rule.
    pub open spec fn spec_includes(self, prayer: Prayer) -> bool {
        match self {
            FocusTrigger::Obligatory => prayer.spec_is_obligatory(),
            FocusTrigger::All => true,
            FocusTrigger::FajrIsha => prayer == Prayer::Fajr || prayer == Prayer::Isha,
        }
    }

    /// Whether `prayer` should trigger Focus Mode under this rule.
    pub fn includes(self, prayer: Prayer) -> (r: bool)
        ensures
            r == self.spec_includes(prayer),
    {
        match self {
            FocusTrigger::Obligatory => prayer.is_obligatory(),
            FocusTrigger::All => true,
            FocusTrigger::FajrIsha => prayer == Prayer::Fajr || prayer == Prayer::Isha,
        }
    }
}

/// How the daily times are sourced.
#[derive(Debug, Clone, Copy, PartialEq, Eq, Structural)]
pub enum CalculationMode {
    Calculated,
    Manual,
}

/// How the observer location is determined.
#[derive(Debug, Clone, Copy, PartialEq, Eq, Structural)]
pub enum LocationMode {
    Automatic,
    Manual,
}

/// UI theme preference. `Auto` follows the system's colour scheme.
#[derive(Debug, Clone, Copy, PartialEq, Eq, Structural)]
pub enum AppearanceTheme {
    Dark,
    Light,
    Auto,
}

/// Fallback early-reminder lead (minutes) when a reminder is enabled but
/// neither the per-prayer override nor the default supplies a positive lead.
pub const FALLBACK_EARLY_LEAD_MINUTES: i32 = 15;

/// The full persisted configuration.
#[derive(Debug, Clone, PartialEq)]
pub struct AppSettings {
    pub method_id: String,
    pub manual_parameters: Option<CalculationParameters>,
    pub hanafi_asr: bool,
    pub high_latitude_rule: HighLatitudeRule,
    pub location_mode: LocationMode,
    pub manual_coordinates: Option<Coordinates>,
    /// IANA timezone id; `None` follows the system zone.
    pub timezone_override: Option<String>,
    pub auto_detect_method: bool,
    pub calculation_mode: CalculationMode,
    /// Minutes before each jamaat time the azan reminder fires (0 = at jamaat).
    pub azan_before_jamaat: i32,
    /// Keep astronomical Sunrise & non-jamaat windows while in manual mode.
    pub manual_keep_waqt: bool,
    /// Fixed jamaat times for the five obligatory prayers, minutes since midnight.
    pub jamaat_times: PrayerMap<i32>,
    pub menu_bar_style: MenuBarStyle,
    pub menu_bar_countdown_mode: MenuBarCountdownMode,
    pub show_ishraq_time: bool,
    pub show_hijri_date: bool,
    /// Whole-day correction applied to the displayed Hijri date.
    pub hijri_day_adjustment: i32,
    pub focus_mode_enabled: bool,
    pub focus_duration_minutes: i32,
    pub focus_blur_intensity: FocusBlurIntensity,
    pub focus_trigger: FocusTrigger,
    pub focus_emergency_exit_enabled: bool,
    pub appearance: AppearanceTheme,
    pub launch_at_login: bool,
    /// BCP-47 language tag; `None` follows the system locale.
    pub language_override: Option<String>,
    pub master_notifications_enabled: bool,
    pub notification_defaults: NotificationDefaults,
    pub notifications: PrayerMap<PrayerNotificationConfig>,
    pub auto_update_enabled: bool,
    /// Whether the first-launch setup wizard has been completed (or skipped).
    pub did_complete_onboarding: bool,
}

/// The seeded jamaat time (minutes since midnight) of each obligatory prayer.
pub open spec fn spec_default_jamaat_time(p: Prayer) -> Option<i32> {
    match p {
        Prayer::Fajr => Some(300i32),
        Prayer::Sunrise => None,
        Prayer::Dhuhr => Some(810i32),
        Prayer::Asr => Some(1020i32),
        Prayer::Maghrib => Some(1110i32),
        Prayer::Isha => Some(1200i32),
    }
}

/// The seeded notification configuration of each prayer: Sunrise quiet,
/// Dhuhr with a 20-minute reminder, Maghrib with a 10-minute reminder, the
/// rest at the default.
pub open spec fn spec_default_notification_config(p: Prayer) -> PrayerNotificationConfig {
    match p {
        Prayer::Sunrise => PrayerNotificationConfig { notify: false, ..spec_default_prayer_config() },
        Prayer::Dhuhr => PrayerNotificationConfig {
            early_reminder_enabled: true,
            early_lead_minutes_override: Some(20),
            ..spec_default_prayer_config()
        },
        Prayer::Maghrib => PrayerNotificationConfig {
            early_reminder_enabled: true,
            early_lead_minutes_override: Some(10),
            ..spec_default_prayer_config()
        },
        _ => spec_default_prayer_config(),
    }
}

/// Placeholder jamaat schedule (minutes since midnight), seeded for Manual mode.
pub fn default_jamaat_times() -> (m: PrayerMap<i32>)
    ensures
        forall|p: Prayer| #[trigger] m.slot(p) == spec_default_jamaat_time(p),
{
    let mut m = PrayerMap::new();
    m.insert(Prayer::Fajr, 5 * 60);
    m.insert(Prayer::Dhuhr, 13 * 60 + 30);
    m.insert(Prayer::Asr, 17 * 60);
    m.insert(Prayer::Maghrib, 18 * 60 + 30);
    m.insert(Prayer::Isha, 20 * 60);
    m
}

/// Per-prayer defaults: Sunrise quiet, Dhuhr 20-minute reminder, Maghrib 10.
pub fn default_notifications() -> (m: PrayerMap<PrayerNotificationConfig>)
    ensures
        forall|p: Prayer| #[trigger] m.slot(p) == Some(spec_default_notification_config(p)),
{
    let mut configs = PrayerMap::new();
    let mut i: usize = 0;
    while i < 6
        invariant
            i <= 6,
            forall|p: Prayer| #[trigger]
                configs.slot(p) == if crate::prayer::spec_day_order(p) < i {
                    Some(spec_default_notification_config(p))
                } else {
                    None
                },
        decreases 6 - i,
    {
        let prayer = Prayer::at_index(i);
        let cfg = match prayer {
            Prayer::Sunrise => PrayerNotificationConfig { notify: false, ..Default::default() },
            Prayer::Dhuhr => PrayerNotificationConfig {
                early_reminder_enabled: true,
                early_lead_minutes_override: Some(20),
                ..Default::default()
            },
            Prayer::Maghrib => PrayerNotificationConfig {
                early_reminder_enabled: true,
                early_lead_minutes_override: Some(10),
                ..Default::default()
            },
            _ => PrayerNotificationConfig::default(),
        };
        configs.insert(prayer, cfg);
        i = i + 1;
    }
    configs
}

impl AppSettings {
    /// Effective early-reminder lead for `prayer`: the per-prayer override,
    /// else the global default. May be 0 ("no lead set").
    pub open spec fn spec_early_lead_minutes(&self, prayer: Prayer) -> i32 {
        match self.notifications.slot(prayer) {
            Some(cfg) => match cfg.early_lead_minutes_override {
                Some(m) => m,
                None => self.notification_defaults.early_reminder_minutes,
            },
            None => self.notification_defaults.early_reminder_minutes,
        }
    }

    /// The prayer's own configuration, or the default one when none is stored.
    pub open spec fn config_for(&self, prayer: Prayer) -> PrayerNotificationConfig {
        match self.notifications.slot(prayer) {
            Some(cfg) => cfg,
            None => spec_default_prayer_config(),
        }
    }

    /// The per-prayer configuration merged over the app defaults.
    pub open spec fn spec_resolved_notification(&self, prayer: Prayer) -> ResolvedNotification {
        let cfg = self.config_for(prayer);
        let lead = self.spec_early_lead_minutes(prayer);
        let iqamah = if prayer.spec_is_obligatory() {
            match cfg.iqamah_offset_minutes_override {
                Some(m) => m,
                None => self.notification_defaults.iqamah_offset_minutes,
            }
        } else {
            0
        };
        ResolvedNotification {
            notify: cfg.notify,
            sound: match cfg.sound_override {
                Some(s) => s,
                None => self.notification_defaults.sound,
            },
            play_full_adhan: prayer.spec_is_obligatory() && cfg.play_full_adhan,
            early_reminder_enabled: cfg.early_reminder_enabled,
            early_lead_minutes: if lead > 0 {
                lead
            } else {
                FALLBACK_EARLY_LEAD_MINUTES
            },
            iqamah_offset_minutes: if iqamah > 0 {
                iqamah
            } else {
                0
            },
        }
    }

    /// Effective early-reminder lead for `prayer`: the per-prayer override,
    /// else the global default. May be 0 ("no lead set").
    pub fn early_lead_minutes(&self, prayer: Prayer) -> (r: i32)
        ensures
            r == self.spec_early_lead_minutes(prayer),
    {
        match self.notifications.get(prayer) {
            Some(cfg) => match cfg.early_lead_minutes_override {
                Some(m) => m,
                None => self.notification_defaults.early_reminder_minutes,
            },
            None => self.notification_defaults.early_reminder_minutes,
        }
    }

    /// Merge a prayer's per-prayer config over the app defaults into the
    /// concrete values the scheduler consumes. An enabled reminder always gets a
    /// positive lead (falling back to [`FALLBACK_EARLY_LEAD_MINUTES`]); the
    /// iqamah offset is never negative; Sunrise never carries Adhan or iqamah.
    pub fn resolved_notification(&self, prayer: Prayer) -> (r: ResolvedNotification)
        ensures
            r == self.spec_resolved_notification(prayer),
            r.early_lead_minutes > 0,
            r.iqamah_offset_minutes >= 0,
            prayer == Prayer::Sunrise ==> !r.play_full_adhan && r.iqamah_offset_minutes == 0,
    {
        let cfg = match self.notifications.get(prayer) {
            Some(c) => *c,
            None => PrayerNotificationConfig::default(),
        };
        let lead = match self.early_lead_minutes(prayer) {
            n if n > 0 => n,
            _ => FALLBACK_EARLY_LEAD_MINUTES,
        };
        let iqamah = if prayer.is_obligatory() {
            match cfg.iqamah_offset_minutes_override {
                Some(m) => m,
                None => self.notification_defaults.iqamah_offset_minutes,
            }
        } else {
            0
        };
        ResolvedNotification {
            notify: cfg.notify,
            sound: match cfg.sound_override {
                Some(s) => s,
                None => self.notification_defaults.sound,
            },
            play_full_adhan: prayer.is_obligatory() && cfg.play_full_adhan,
            early_reminder_enabled: cfg.early_reminder_enabled,
            early_lead_minutes: lead,
            iqamah_offset_minutes: if iqamah > 0 {
                iqamah
            } else {
                0
            },
        }
    }
}

impl AppSettings {
    /// Take over a detected location: its coordinates, its timezone when one
    /// was detected, and, when method auto-detection is on, the default method
    /// of its country. Every other setting is kept.
    pub fn apply_detected_location(
        &mut self,
        coordinates: Coordinates,
        country_code: Option<&str>,
        timezone: Option<String>,
    )
        ensures
            final(self).manual_coordinates == Some(coordinates),
            final(self).timezone_override == if timezone is Some {
                timezone
            } else {
                old(self).timezone_override
            },
            old(self).auto_detect_method ==> final(self).method_id@ == match country_code {
                None => "mwl"@,
                Some(c) => crate::adapters::registry::spec_country_method_id(
                    crate::adapters::registry::spec_to_uppercase(c@),
                ),
            },
            !old(self).auto_detect_method ==> final(self).method_id == old(self).method_id,
            *final(self) == (AppSettings {
                method_id: final(self).method_id,
                manual_coordinates: Some(coordinates),
                timezone_override: final(self).timezone_override,
                ..*old(self)
            }),
    {
        self.manual_coordinates = Some(coordinates);
        if timezone.is_some() {
            self.timezone_override = timezone;
        }
        if self.auto_detect_method {
            self.method_id = crate::adapters::MethodRegistry::method_id_for_country(country_code);
        }
    }
}

/// Law: a prayer's resolved notification follows its own stored
/// configuration, falling back to the app-wide defaults only where that
/// configuration leaves a value open:
/// - it notifies unless the prayer's configuration turns notifying off;
/// - the full Adhan plays exactly for an obligatory prayer whose own
///   configuration asks for it (never from the app-wide flag, never at Sunrise);
/// - the early reminder is on exactly when the prayer's configuration turns it on;
/// - the sound is the prayer's own choice, else the app-wide sound;
/// - the lead is the prayer's own lead, else the app-wide one, and 15 minutes
///   when that is not positive;
/// - the iqamah offset is the prayer's own, else the app-wide one, for an
///   obligatory prayer, never negative, and 0 at Sunrise.
pub proof fn lemma_resolved_notification_follows_own_config(s: AppSettings, p: Prayer)
    ensures
        ({
            let r = s.spec_resolved_notification(p);
            let own = s.notifications.slot(p);
            let lead: int = match own {
                Some(c) if c.early_lead_minutes_override is Some => c.early_lead_minutes_override->0
                    as int,
                _ => s.notification_defaults.early_reminder_minutes as int,
            };
            let iqamah: int = match own {
                Some(c) if c.iqamah_offset_minutes_override is Some => c.iqamah_offset_minutes_override->0
                    as int,
                _ => s.notification_defaults.iqamah_offset_minutes as int,
            };
            &&& r.notify == !(own matches Some(c) && !c.notify)
            &&& r.play_full_adhan == (p != Prayer::Sunrise && (own matches Some(c) && c.play_full_adhan))
            &&& r.early_reminder_enabled == (own matches Some(c) && c.early_reminder_enabled)
            &&& r.sound == match own {
                Some(c) if c.sound_override is Some => c.sound_override->0,
                _ => s.notification_defaults.sound,
            }
            &&& r.early_lead_minutes == if lead > 0 {
                lead
            } else {
                15
            }
            &&& r.iqamah_offset_minutes == if p == Prayer::Sunrise || iqamah < 0 {
                0
            } else {
                iqamah
            }
        }),
{
}

/// Law: the app-wide Adhan flag does not decide any prayer's Adhan: settings
/// that differ only in it resolve every prayer's notification alike.
pub proof fn lemma_default_adhan_flag_decides_nothing(s: AppSettings, flag: bool, p: Prayer)
    ensures
        (AppSettings {
            notification_defaults: NotificationDefaults {
                play_full_adhan: flag,
                ..s.notification_defaults
            },
            ..s
        }).spec_resolved_notification(p) == s.spec_resolved_notification(p),
{
}

impl Default for AppSettings {
    fn default() -> (s: Self)
        ensures
            s.method_id@ == "mwl"@,
            s.manual_parameters is None,
            !s.hanafi_asr,
            s.high_latitude_rule == HighLatitudeRule::Automatic,
            s.location_mode == LocationMode::Automatic,
            s.manual_coordinates is None,
            s.timezone_override is None,
            !s.auto_detect_method,
            s.calculation_mode == CalculationMode::Calculated,
            s.azan_before_jamaat == 15,
            s.manual_keep_waqt,
            forall|p: Prayer| #[trigger] s.jamaat_times.slot(p) == spec_default_jamaat_time(p),
            s.menu_bar_style == MenuBarStyle::IconNameCountdown,
            s.menu_bar_countdown_mode == MenuBarCountdownMode::NextPrayer,
            !s.show_ishraq_time,
            s.show_hijri_date,
            s.hijri_day_adjustment == 0,
            !s.focus_mode_enabled,
            s.focus_duration_minutes == 15,
            s.focus_blur_intensity == FocusBlurIntensity::Medium,
            s.focus_trigger == FocusTrigger::Obligatory,
            s.focus_emergency_exit_enabled,
            s.appearance == AppearanceTheme::Auto,
            !s.launch_at_login,
            s.language_override is None,
            s.master_notifications_enabled,
            s.notification_defaults == spec_default_notification_defaults(),
            forall|p: Prayer| #[trigger]
                s.notifications.slot(p) == Some(spec_default_notification_config(p)),
            s.auto_update_enabled,
            !s.did_complete_onboarding,
    {
        AppSettings {
            method_id: String::from_str("mwl"),
            manual_parameters: None,
            hanafi_asr: false,
            high_latitude_rule: HighLatitudeRule::Automatic,
            location_mode: LocationMode::Automatic,
            manual_coordinates: None,
            timezone_override: None,
            auto_detect_method: false,
            calculation_mode: CalculationMode::Calculated,
            azan_before_jamaat: 15,
            manual_keep_waqt: true,
            jamaat_times: default_jamaat_times(),
            menu_bar_style: MenuBarStyle::IconNameCountdown,
            menu_bar_countdown_mode: MenuBarCountdownMode::NextPrayer,
            show_ishraq_time: false,
            show_hijri_date: true,
            hijri_day_adjustment: 0,
            focus_mode_enabled: false,
            focus_duration_minutes: 15,
            focus_blur_intensity: FocusBlurIntensity::Medium,
            focus_trigger: FocusTrigger::Obligatory,
            focus_emergency_exit_enabled: true,
            appearance: AppearanceTheme::Auto,
            launch_at_login: false,
            language_override: None,
            master_notifications_enabled: true,
            notification_defaults: NotificationDefaults::default(),
            notifications: default_notifications(),
            auto_update_enabled: true,
            did_complete_onboarding: false,
        }
    }
}

} // verus!
