//! Prayer-time core: the value types, per-prayer tables, method catalog,
//! settings resolution and time-window logic of a prayer-times app.

pub mod prayer;

pub use prayer::Prayer;
pub mod prayer_map;
pub use prayer_map::PrayerMap;
pub mod prayer_times;
pub use prayer_times::PrayerTimes;
pub mod current_waqt;
pub use current_waqt::CurrentWaqt;
pub mod notification_sound;
pub use notification_sound::NotificationSound;
pub mod high_latitude;
pub mod coordinates;
pub mod params;
pub use high_latitude::HighLatitudeRule;
pub use coordinates::Coordinates;
pub use params::CalculationParameters;
pub mod notification;
pub mod settings;
pub use notification::{NotificationDefaults, PrayerNotificationConfig, ResolvedNotification};
pub use settings::{
    default_jamaat_times, default_notifications, AppSettings, AppearanceTheme, CalculationMode,
    FocusBlurIntensity, FocusTrigger, LocationMode, MenuBarCountdownMode, MenuBarStyle,
    FALLBACK_EARLY_LEAD_MINUTES,
};
pub mod adapters;
pub use adapters::{
    CalculationMethodAdapter, DiyanetAdapter, EgyptianAdapter, HanafiAsrModifier, IsnaAdapter,
    JakimAdapter, KarachiAdapter, KemenagAdapter, ManualAdapter, MethodRegistry,
    MoonsightingCommitteeAdapter, MwlAdapter, UmmAlQuraAdapter,
};
pub mod engine;
pub mod clock;
pub mod delivery;
pub mod audio;
pub mod location;
