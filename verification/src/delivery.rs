//! What to do when a notification comes due: which sound the banner carries,
//! what plays in-process, and whether Focus Mode engages. The user's chosen
//! sound plays in-process for sounds other than the system default (so the
//! banner is sent silent to avoid double audio); the system default lets the
//! OS chime; `Silent` is a silent banner. Audio reached too late (e.g. after a
//! sleep) is skipped; the banner still informs.

use vstd::prelude::*;

use crate::notification_sound::NotificationSound;
use crate::settings::{AppSettings, FocusBlurIntensity};

verus! {

/// Audio for an event reached more than this late is not played.
pub const AUDIO_STALE_MS: i64 = 10_000;

/// A bundled in-process audio clip.
#[derive(Debug, Clone, Copy, PartialEq, Eq, Structural)]
pub enum AudioClip {
    SoftChime,
    Takbir,
    AdhanMakkah,
    AdhanMadinah,
}

impl AudioClip {
    /// Whether the clip is long enough to warrant a Stop control (an Adhan).
    pub open spec fn spec_is_long(self) -> bool {
        self == AudioClip::AdhanMakkah || self == AudioClip::AdhanMadinah
    }

    /// Whether the clip is long enough to warrant a Stop control (an Adhan).
    pub fn is_long(self) -> (r: bool)
        ensures
            r == self.spec_is_long(),
    {
        match self {
            AudioClip::AdhanMakkah | AudioClip::AdhanMadinah => true,
            _ => false,
        }
    }
}

/// The in-process clip for a sound choice; none for the system default (the OS
/// plays it) and for `Silent`.
pub open spec fn spec_clip_for(sound: NotificationSound) -> Option<AudioClip> {
    match sound {
        NotificationSound::Silent | NotificationSound::SystemDefault => None,
        NotificationSound::SoftChime => Some(AudioClip::SoftChime),
        NotificationSound::Takbir => Some(AudioClip::Takbir),
        NotificationSound::AdhanMakkah => Some(AudioClip::AdhanMakkah),
        NotificationSound::AdhanMadinah => Some(AudioClip::AdhanMadinah),
    }
}

/// Pick the in-process clip for a sound choice.
pub fn clip_for(sound: NotificationSound) -> (r: Option<AudioClip>)
    ensures
        r == spec_clip_for(sound),
{
    match sound {
        NotificationSound::Silent | NotificationSound::SystemDefault => None,
        NotificationSound::SoftChime => Some(AudioClip::SoftChime),
        NotificationSound::Takbir => Some(AudioClip::Takbir),
        NotificationSound::AdhanMakkah => Some(AudioClip::AdhanMakkah),
        NotificationSound::AdhanMadinah => Some(AudioClip::AdhanMadinah),
    }
}

/// Whether playing `sound` in-process starts a long clip (an Adhan), so that a
/// Stop control should be offered.
pub fn plays_long(sound: NotificationSound) -> (r: bool)
    ensures
        r == (spec_clip_for(sound) matches Some(c) && c.spec_is_long()),
{
    match clip_for(sound) {
        Some(c) => c.is_long(),
        None => false,
    }
}

/// Whether this sound plays in-process (rather than by the OS or not at all).
pub open spec fn spec_in_process_sound(sound: NotificationSound) -> bool {
    sound != NotificationSound::Silent && sound != NotificationSound::SystemDefault
}

/// Whether this sound plays in-process (rather than by the OS or not at all).
pub fn in_process_sound(sound: NotificationSound) -> (r: bool)
    ensures
        r == spec_in_process_sound(sound),
{
    match sound {
        NotificationSound::Silent | NotificationSound::SystemDefault => false,
        _ => true,
    }
}

/// What an Adhan event tells Focus Mode to display when it engages.
#[derive(Debug, Clone, PartialEq)]
pub struct FocusCue {
    pub prayer: String,
    pub duration_minutes: i32,
    pub blur: FocusBlurIntensity,
    pub emergency_exit: bool,
}

impl FocusCue {
    /// The cue for `prayer` under the user's Focus Mode settings.
    pub fn from_settings(settings: &AppSettings, prayer: String) -> (c: Self)
        ensures
            c == (FocusCue {
                prayer,
                duration_minutes: settings.focus_duration_minutes,
                blur: settings.focus_blur_intensity,
                emergency_exit: settings.focus_emergency_exit_enabled,
            }),
    {
        FocusCue {
            prayer,
            duration_minutes: settings.focus_duration_minutes,
            blur: settings.focus_blur_intensity,
            emergency_exit: settings.focus_emergency_exit_enabled,
        }
    }
}

/// A single due notification.
#[derive(Debug, Clone, PartialEq)]
pub struct NotifEvent {
    pub fire_ms: i64,
    pub title: String,
    pub body: String,
    /// Sound to play at this event (per the resolved per-prayer config).
    pub sound: NotificationSound,
    /// Play the full Adhan recording at this event.
    pub play_full_adhan: bool,
    /// Which Adhan recording to use (when `play_full_adhan` is true).
    pub madinah: bool,
    /// Present on Adhan events that should engage Focus Mode.
    pub focus: Option<FocusCue>,
}

/// The sound setting of the OS banner.
#[derive(Debug, Clone, Copy, PartialEq, Eq, Structural)]
pub enum BannerSound {
    /// No OS sound (audio plays in-process).
    Silent,
    /// The OS default chime.
    SystemDefault,
    /// No sound setting at all.
    Unset,
}

/// What plays in-process.
#[derive(Debug, Clone, Copy, PartialEq, Eq, Structural)]
pub enum Playback {
    /// The full Adhan recording (Madinah or Makkah).
    FullAdhan { madinah: bool },
    /// The clip for the event's sound.
    Sound(NotificationSound),
}

/// How one due event is delivered.
#[derive(Debug, Clone, Copy, PartialEq, Eq, Structural)]
pub struct DeliveryPlan {
    pub banner_sound: BannerSound,
    pub playback: Option<Playback>,
    /// Whether a long recording starts, so the panel should offer Stop.
    pub announce_adhan: bool,
    /// Whether Focus Mode engages with the event's cue.
    pub engage_focus: bool,
}

/// Whether audio for an event due at `fire_ms` is stale at `now_ms`.
pub open spec fn is_stale(fire_ms: i64, now_ms: i64) -> bool {
    now_ms - fire_ms > AUDIO_STALE_MS
}

/// How `ev` is delivered at `now_ms` (see [`plan_delivery`]).
pub open spec fn spec_delivery_plan(ev: NotifEvent, now_ms: i64) -> DeliveryPlan {
    let in_process = !is_stale(ev.fire_ms, now_ms) && (ev.play_full_adhan || spec_in_process_sound(
        ev.sound,
    ));
    DeliveryPlan {
        banner_sound: if in_process {
            BannerSound::Silent
        } else if ev.sound == NotificationSound::SystemDefault {
            BannerSound::SystemDefault
        } else {
            BannerSound::Unset
        },
        playback: if !in_process {
            None
        } else if ev.play_full_adhan {
            Some(Playback::FullAdhan { madinah: ev.madinah })
        } else {
            Some(Playback::Sound(ev.sound))
        },
        announce_adhan: in_process && (ev.play_full_adhan || (spec_clip_for(ev.sound) matches Some(
            c,
        ) && c.spec_is_long())),
        engage_focus: ev.focus is Some,
    }
}

/// Law: which sounds play in-process. Every bundled clip (soft chime, Takbir,
/// the Makkah and the Madinah Adhan) plays in-process; the system default and
/// `Silent` do not. Of the clips, exactly the two Adhans are long.
pub proof fn lemma_in_process_sounds(sound: NotificationSound)
    ensures
        spec_in_process_sound(sound) <==> (sound == NotificationSound::SoftChime || sound
            == NotificationSound::Takbir || sound == NotificationSound::AdhanMakkah || sound
            == NotificationSound::AdhanMadinah),
        spec_clip_for(sound) is Some <==> spec_in_process_sound(sound),
        (spec_clip_for(sound) matches Some(c) && c.spec_is_long()) <==> (sound
            == NotificationSound::AdhanMakkah || sound == NotificationSound::AdhanMadinah),
{
}

/// Law: a timely event plays what was chosen. When the event is not stale
/// and no full Adhan is asked for, every bundled clip plays in-process with a
/// silent banner, and a Stop control is offered exactly for the two Adhans;
/// the system default chimes through the banner and `Silent` plays nothing.
/// When the full Adhan is asked for, it plays (the chosen recording) with a
/// silent banner and a Stop control. A stale event plays nothing.
pub proof fn lemma_delivery_plays_choice(ev: NotifEvent, now_ms: i64)
    ensures
        ({
            let plan = spec_delivery_plan(ev, now_ms);
            let clip = ev.sound == NotificationSound::SoftChime || ev.sound
                == NotificationSound::Takbir || ev.sound == NotificationSound::AdhanMakkah
                || ev.sound == NotificationSound::AdhanMadinah;
            let adhan = ev.sound == NotificationSound::AdhanMakkah || ev.sound
                == NotificationSound::AdhanMadinah;
            &&& (!is_stale(ev.fire_ms, now_ms) && !ev.play_full_adhan && clip) ==> (plan.playback
                == Some(Playback::Sound(ev.sound)) && plan.banner_sound == BannerSound::Silent
                && plan.announce_adhan == adhan)
            &&& (!is_stale(ev.fire_ms, now_ms) && !ev.play_full_adhan && ev.sound
                == NotificationSound::SystemDefault) ==> (plan.playback is None
                && plan.banner_sound == BannerSound::SystemDefault && !plan.announce_adhan)
            &&& (!is_stale(ev.fire_ms, now_ms) && !ev.play_full_adhan && ev.sound
                == NotificationSound::Silent) ==> (plan.playback is None && plan.banner_sound
                == BannerSound::Unset && !plan.announce_adhan)
            &&& (!is_stale(ev.fire_ms, now_ms) && ev.play_full_adhan) ==> (plan.playback == Some(
                Playback::FullAdhan { madinah: ev.madinah },
            ) && plan.banner_sound == BannerSound::Silent && plan.announce_adhan)
            &&& is_stale(ev.fire_ms, now_ms) ==> (plan.playback is None && !plan.announce_adhan)
        }),
{
    lemma_in_process_sounds(ev.sound);
}

/// Decide how to deliver `ev` at `now_ms`. In-process audio plays only when
/// the event is not stale and either the full Adhan or an in-process sound is
/// asked for; the banner is then silent, so audio never doubles. Otherwise the
/// banner chimes with the OS default when that sound was chosen.
pub fn plan_delivery(ev: &NotifEvent, now_ms: i64) -> (plan: DeliveryPlan)
    ensures
        plan == spec_delivery_plan(*ev, now_ms),
        ({
            let in_process = !is_stale(ev.fire_ms, now_ms) && (ev.play_full_adhan
                || spec_in_process_sound(ev.sound));
            &&& plan.banner_sound == if in_process {
                BannerSound::Silent
            } else if ev.sound == NotificationSound::SystemDefault {
                BannerSound::SystemDefault
            } else {
                BannerSound::Unset
            }
            &&& plan.playback == if !in_process {
                None
            } else if ev.play_full_adhan {
                Some(Playback::FullAdhan { madinah: ev.madinah })
            } else {
                Some(Playback::Sound(ev.sound))
            }
            &&& plan.announce_adhan == (in_process && (ev.play_full_adhan || (spec_clip_for(
                ev.sound,
            ) matches Some(c) && c.spec_is_long())))
            &&& plan.engage_focus == ev.focus is Some
        }),
        plan.playback is Some ==> plan.banner_sound == BannerSound::Silent,
        is_stale(ev.fire_ms, now_ms) ==> plan.playback is None,
{
    let stale = (now_ms as i128) - (ev.fire_ms as i128) > AUDIO_STALE_MS as i128;
    let in_process = !stale && (ev.play_full_adhan || in_process_sound(ev.sound));
    let banner_sound = if in_process {
        BannerSound::Silent
    } else if ev.sound == NotificationSound::SystemDefault {
        BannerSound::SystemDefault
    } else {
        BannerSound::Unset
    };
    let (playback, announce_adhan) = if in_process {
        if ev.play_full_adhan {
            (Some(Playback::FullAdhan { madinah: ev.madinah }), true)
        } else {
            (Some(Playback::Sound(ev.sound)), plays_long(ev.sound))
        }
    } else {
        (None, false)
    };
    DeliveryPlan { banner_sound, playback, announce_adhan, engage_focus: ev.focus.is_some() }
}

} // verus!
