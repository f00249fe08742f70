//! The six daily events the app tracks.

use vstd::prelude::*;

verus! {

/// The six daily events the app tracks. `Sunrise` is included because it bounds
/// the Fajr window and is shown in the panel, but it is not an obligatory prayer
/// (no iqamah, no congregation).
///
/// Variants are declared in chronological order through the day, so the
/// derived order is the order through the day.
#[derive(Debug, Clone, Copy, PartialEq, Eq, Structural, PartialOrd, Ord, Hash)]
pub enum Prayer {
    Fajr,
    Sunrise,
    Dhuhr,
    Asr,
    Maghrib,
    Isha,
}

/// Position of a prayer in the day (0 = Fajr .. 5 = Isha).
pub open spec fn spec_day_order(p: Prayer) -> nat {
    match p {
        Prayer::Fajr => 0,
        Prayer::Sunrise => 1,
        Prayer::Dhuhr => 2,
        Prayer::Asr => 3,
        Prayer::Maghrib => 4,
        Prayer::Isha => 5,
    }
}

/// The prayer at position `i` of the day (`0 <= i < 6`).
pub open spec fn prayer_at(i: int) -> Prayer
    recommends
        0 <= i < 6,
{
    if i == 0 {
        Prayer::Fajr
    } else if i == 1 {
        Prayer::Sunrise
    } else if i == 2 {
        Prayer::Dhuhr
    } else if i == 3 {
        Prayer::Asr
    } else if i == 4 {
        Prayer::Maghrib
    } else {
        Prayer::Isha
    }
}

impl Prayer {
    /// All six events in chronological order.
    pub const ALL: [Prayer; 6] = [
        Prayer::Fajr,
        Prayer::Sunrise,
        Prayer::Dhuhr,
        Prayer::Asr,
        Prayer::Maghrib,
        Prayer::Isha,
    ];

    /// The five obligatory prayers, excluding `Sunrise`.
    pub const OBLIGATORY: [Prayer; 5] = [
        Prayer::Fajr,
        Prayer::Dhuhr,
        Prayer::Asr,
        Prayer::Maghrib,
        Prayer::Isha,
    ];

    /// `true` for the five obligatory prayers; `false` for `Sunrise`.
    pub open spec fn spec_is_obligatory(self) -> bool {
        self != Prayer::Sunrise
    }

    /// `true` for the five obligatory prayers; `false` for `Sunrise`.
    #[verifier::when_used_as_spec(spec_is_obligatory)]
    pub fn is_obligatory(self) -> (r: bool)
        ensures
            r == self.spec_is_obligatory(),
    {
        match self {
            Prayer::Sunrise => false,
            _ => true,
        }
    }

    /// The prayer at position `i` of the day.
    pub fn at_index(i: usize) -> (p: Prayer)
        requires
            i < 6,
        ensures
            p == prayer_at(i as int),
            spec_day_order(p) == i,
    {
        if i == 0 {
            Prayer::Fajr
        } else if i == 1 {
            Prayer::Sunrise
        } else if i == 2 {
            Prayer::Dhuhr
        } else if i == 3 {
            Prayer::Asr
        } else if i == 4 {
            Prayer::Maghrib
        } else {
            Prayer::Isha
        }
    }

    /// Stable ordering through the day, used for "next prayer" logic.
    pub fn day_order(self) -> (r: u8)
        ensures
            r == spec_day_order(self),
    {
        match self {
            Prayer::Fajr => 0,
            Prayer::Sunrise => 1,
            Prayer::Dhuhr => 2,
            Prayer::Asr => 3,
            Prayer::Maghrib => 4,
            Prayer::Isha => 5,
        }
    }
}

/// Every prayer sits at its own position of the day.
pub proof fn lemma_prayer_at_day_order(p: Prayer)
    ensures
        spec_day_order(p) < 6,
        prayer_at(spec_day_order(p) as int) == p,
{
}

/// Positions of the day name distinct prayers.
pub proof fn lemma_day_order_injective(p: Prayer, q: Prayer)
    ensures
        spec_day_order(p) == spec_day_order(q) ==> p == q,
{
}

} // verus!
