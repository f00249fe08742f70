//! The commands that drive in-process audio playback (notification chimes and
//! the full Adhan). The player runs on a thread of its own and receives these
//! commands over a channel; sending them is the application's part.

use vstd::prelude::*;

use crate::delivery::Playback;
use crate::notification_sound::NotificationSound;

verus! {

/// What the playback thread is asked to do.
#[derive(Debug, Clone, Copy, PartialEq, Eq, Structural)]
pub enum AudioCommand {
    /// Play the clip of a notification sound (none for the system default and
    /// for `Silent`).
    Play { sound: NotificationSound },
    /// Play the full Adhan recording, Madinah's or Makkah's.
    PlayFullAdhan { madinah: bool },
    /// Stop whatever is playing.
    Stop,
}

/// The command that carries out an in-process playback decision.
pub open spec fn spec_playback_command(p: Playback) -> AudioCommand {
    match p {
        Playback::FullAdhan { madinah } => AudioCommand::PlayFullAdhan { madinah },
        Playback::Sound(sound) => AudioCommand::Play { sound },
    }
}

impl AudioCommand {
    /// The command that plays the clip of `sound`.
    pub fn play(sound: NotificationSound) -> (c: AudioCommand)
        ensures
            c == (AudioCommand::Play { sound }),
    {
        AudioCommand::Play { sound }
    }

    /// The command that plays the full Adhan recording (Madinah's when
    /// `madinah`, else Makkah's).
    pub fn full_adhan(madinah: bool) -> (c: AudioCommand)
        ensures
            c == (AudioCommand::PlayFullAdhan { madinah }),
    {
        AudioCommand::PlayFullAdhan { madinah }
    }

    /// The command that stops whatever is playing.
    pub fn stop() -> (c: AudioCommand)
        ensures
            c == AudioCommand::Stop,
    {
        AudioCommand::Stop
    }

    /// The command that carries out `playback`: the full Adhan recording, or
    /// the clip of the event's sound.
    pub fn for_playback(playback: Playback) -> (c: AudioCommand)
        ensures
            c == spec_playback_command(playback),
    {
        match playback {
            Playback::FullAdhan { madinah } => AudioCommand::full_adhan(madinah),
            Playback::Sound(sound) => AudioCommand::play(sound),
        }
    }
}

} // verus!
