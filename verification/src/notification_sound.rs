//! Selectable sound for a notification slot.

use vstd::prelude::*;

verus! {

/// Selectable sound for a notification slot (`Silent` plays nothing). The
/// `Adhan*` cases imply a short notification clip plus optional full-file
/// playback by the resident app.
#[derive(Debug, Clone, Copy, PartialEq, Eq, Structural, Hash)]
pub enum NotificationSound {
    Silent,
    SystemDefault,
    SoftChime,
    Takbir,
    AdhanMakkah,
    AdhanMadinah,
}

impl NotificationSound {
    /// Whether this selection has a full-length Adhan recording.
    pub open spec fn spec_has_full_adhan(self) -> bool {
        self == NotificationSound::AdhanMakkah || self == NotificationSound::AdhanMadinah
    }

    /// Bundled short clip played with the notification, if any.
    pub open spec fn spec_clip_file_name(self) -> Option<&'static str> {
        match self {
            NotificationSound::Silent | NotificationSound::SystemDefault => None,
            NotificationSound::SoftChime => Some("soft-chime.caf"),
            NotificationSound::Takbir => Some("takbir.caf"),
            NotificationSound::AdhanMakkah | NotificationSound::AdhanMadinah => Some("takbir.caf"),
        }
    }

    /// Bundled full-length Adhan recording, if any.
    pub open spec fn spec_full_adhan_file_name(self) -> Option<&'static str> {
        match self {
            NotificationSound::AdhanMakkah => Some("adhan-makkah.m4a"),
            NotificationSound::AdhanMadinah => Some("adhan-madinah.m4a"),
            _ => None,
        }
    }

    /// Whether this selection has an associated full-length Adhan file that the
    /// in-process audio path can play.
    pub fn has_full_adhan(self) -> (r: bool)
        ensures
            r == self.spec_has_full_adhan(),
    {
        match self {
            NotificationSound::AdhanMakkah | NotificationSound::AdhanMadinah => true,
            _ => false,
        }
    }

    /// Bundled short clip filename used for the notification sound, or `None`
    /// for `Silent`/`SystemDefault`.
    pub fn notification_clip_file_name(self) -> (r: Option<&'static str>)
        ensures
            r == self.spec_clip_file_name(),
    {
        match self {
            NotificationSound::Silent | NotificationSound::SystemDefault => None,
            NotificationSound::SoftChime => Some("soft-chime.caf"),
            NotificationSound::Takbir => Some("takbir.caf"),
            NotificationSound::AdhanMakkah | NotificationSound::AdhanMadinah => Some("takbir.caf"),
        }
    }

    /// Bundled full-length Adhan filename for the in-process player, if any.
    pub fn full_adhan_file_name(self) -> (r: Option<&'static str>)
        ensures
            r == self.spec_full_adhan_file_name(),
    {
        match self {
            NotificationSound::AdhanMakkah => Some("adhan-makkah.m4a"),
            NotificationSound::AdhanMadinah => Some("adhan-madinah.m4a"),
            _ => None,
        }
    }
}

/// Law: exactly the sounds with a full Adhan recording have a full-Adhan file.
pub proof fn lemma_full_adhan_file_iff(s: NotificationSound)
    ensures
        s.spec_has_full_adhan() <==> s.spec_full_adhan_file_name() is Some,
{
}

} // verus!
