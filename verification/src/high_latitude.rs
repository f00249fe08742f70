//! Strategies for resolving Fajr/Isha where the sun may never reach the
//! required twilight depression angle.

use vstd::prelude::*;

verus! {

/// Strategies for resolving Fajr/Isha (and the night-portion guards) at high
/// latitudes.
///
/// - `Automatic`: defer to the calculation method's own recommendation. This is
///   the user-facing default; it is resolved to a concrete rule before any
///   calculation, and behaves like `None` if it ever reaches one.
/// - `Unadjusted`: use the raw computed angle times; may be invalid in summer.
/// - `MiddleOfNight`: clamp Fajr/Isha to at least the night midpoint.
/// - `SeventhOfNight`: Fajr no earlier than sunrise - night/7, Isha no later
///   than sunset + night/7.
/// - `AngleBased`: portion of night proportional to the twilight angle / 60.
#[derive(Debug, Clone, Copy, PartialEq, Eq, Structural, Hash)]
pub enum HighLatitudeRule {
    Automatic,
    Unadjusted,
    MiddleOfNight,
    SeventhOfNight,
    AngleBased,
}

impl HighLatitudeRule {
    /// Whether the rule moves times at all (`Automatic` and `Unadjusted` keep
    /// the raw angle times).
    pub open spec fn spec_adjusts(self) -> bool {
        self != HighLatitudeRule::Automatic && self != HighLatitudeRule::Unadjusted
    }

    /// Whether the rule moves times at all.
    pub fn adjusts(self) -> (r: bool)
        ensures
            r == self.spec_adjusts(),
    {
        match self {
            HighLatitudeRule::Automatic | HighLatitudeRule::Unadjusted => false,
            _ => true,
        }
    }
}

} // verus!
