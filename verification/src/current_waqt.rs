//! The prayer window currently in progress (for the "time left" countdown).

use vstd::prelude::*;

use crate::prayer::{spec_day_order, Prayer};
use crate::prayer_map::{lemma_entries_upto, PrayerMap};
use crate::prayer_times::{valid_instant, PrayerTimes};

verus! {

/// The prayer window that is currently in progress, used for the "time left in
/// the current prayer" countdown as opposed to the "next prayer in X" countdown.
///
/// Each obligatory prayer's window runs until the next event in the day; Isha
/// runs until the following day's Fajr. The interval between `Sunrise` and
/// `Dhuhr` carries no obligatory prayer; it is represented with
/// `prayer == Sunrise` and `is_obligatory() == false`.
#[derive(Debug, Clone, Copy, PartialEq, Eq)]
pub struct CurrentWaqt {
    /// The prayer whose window is active.
    pub prayer: Prayer,
    /// The instant this window closes (the start of the next event).
    pub end: i64,
}

/// Index of the last of `s` (in order) whose instant is at or before `now`; -1
/// when there is none.
pub open spec fn last_at_or_before(s: Seq<(Prayer, i64)>, now: i64) -> int
    decreases s.len(),
{
    if s.len() == 0 {
        -1
    } else if s.last().1 <= now {
        s.len() - 1
    } else {
        last_at_or_before(s.drop_last(), now)
    }
}

/// The window containing `now`, given today's and tomorrow's times.
///
/// Before today's Fajr it is the previous night's Isha, ending at today's Fajr.
/// Otherwise the last of today's events (in the order of the day) at or before
/// `now` owns the window, which ends at the following event of the day, or at
/// tomorrow's Fajr after the last one.
pub open spec fn spec_resolve(now: i64, today: PrayerMap<i64>, tomorrow: PrayerMap<i64>) -> Option<
    CurrentWaqt,
> {
    match today.slot(Prayer::Fajr) {
        None => None,
        Some(fajr) => if now < fajr {
            Some(CurrentWaqt { prayer: Prayer::Isha, end: fajr })
        } else {
            let b = today.entries();
            let idx = last_at_or_before(b, now);
            if idx < 0 {
                None
            } else if idx + 1 < b.len() {
                Some(CurrentWaqt { prayer: b[idx].0, end: b[idx + 1].1 })
            } else {
                match tomorrow.slot(Prayer::Fajr) {
                    Some(next_fajr) => Some(CurrentWaqt { prayer: b[idx].0, end: next_fajr }),
                    None => None,
                }
            }
        },
    }
}

proof fn lemma_last_at_or_before(s: Seq<(Prayer, i64)>, now: i64)
    ensures
        -1 <= last_at_or_before(s, now) < s.len(),
        last_at_or_before(s, now) >= 0 ==> s[last_at_or_before(s, now)].1 <= now,
        forall|k: int|
            last_at_or_before(s, now) < k < s.len() ==> now < #[trigger] s[k].1,
    decreases s.len(),
{
    if s.len() > 0 && !(s.last().1 <= now) {
        lemma_last_at_or_before(s.drop_last(), now);
        assert forall|k: int| last_at_or_before(s, now) < k < s.len() implies now < #[trigger] s[k].1 by {
            if k < s.len() - 1 {
                assert(s[k] == s.drop_last()[k]);
            }
        }
    }
}

/// The day's times increase strictly through the day's order.
pub open spec fn chronological(m: PrayerMap<i64>) -> bool {
    forall|p: Prayer, q: Prayer|
        spec_day_order(p) < spec_day_order(q) ==> (#[trigger] m.slot(p) matches Some(a) ==> (
        #[trigger] m.slot(q) matches Some(b) ==> a < b))
}

/// Law: the resolved window contains `now`. It starts at or before `now` (at
/// the active prayer's time today, or, before today's Fajr, in the previous
/// night's Isha) and closes after `now`, provided `now` is before tomorrow's
/// Fajr.
pub proof fn lemma_window_contains_now(now: i64, today: PrayerTimes, tomorrow: PrayerTimes)
    requires
        tomorrow.times.slot(Prayer::Fajr) matches Some(f) ==> now < f,
    ensures
        spec_resolve(now, today.times, tomorrow.times) matches Some(w) ==> {
            &&& now < w.end
            &&& {
                ||| (w.prayer == Prayer::Isha && (today.times.slot(Prayer::Fajr) matches Some(f)
                    && now < f))
                ||| (today.times.slot(w.prayer) matches Some(start) && start <= now)
            }
        },
{
    let b = today.times.entries();
    lemma_last_at_or_before(b, now);
    lemma_entries_upto(today.times, 6);
}

/// Law: the window is missing only when a Fajr is missing: with today's and
/// tomorrow's Fajr known, every instant resolves to a window.
pub proof fn lemma_resolves_with_both_fajrs(now: i64, today: PrayerTimes, tomorrow: PrayerTimes)
    requires
        today.times.slot(Prayer::Fajr) is Some,
        tomorrow.times.slot(Prayer::Fajr) is Some,
    ensures
        spec_resolve(now, today.times, tomorrow.times) is Some,
{
    let b = today.times.entries();
    let f = today.times.slot(Prayer::Fajr)->0;
    lemma_last_at_or_before(b, now);
    lemma_entries_upto(today.times, 6);
    if f <= now {
        let k = choose|k: int| 0 <= k < b.len() && #[trigger] b[k] == (Prayer::Fajr, f);
        assert(b[k].1 <= now);
    }
}

/// Law: on a day whose times increase through the day, an event's own instant
/// belongs to the window that event opens (the exact boundary belongs to the
/// starting prayer).
pub proof fn lemma_boundary_opens_window(
    p: Prayer,
    today: PrayerTimes,
    tomorrow: PrayerTimes,
)
    requires
        chronological(today.times),
        today.times.slot(Prayer::Fajr) is Some,
        today.times.slot(p) is Some,
    ensures
        spec_resolve(today.times.slot(p)->0, today.times, tomorrow.times) matches Some(w)
            ==> w.prayer == p,
{
    let t = today.times.slot(p)->0;
    let b = today.times.entries();
    lemma_last_at_or_before(b, t);
    lemma_entries_upto(today.times, 6);
    let k = choose|k: int| 0 <= k < b.len() && #[trigger] b[k] == (p, t);
    let idx = last_at_or_before(b, t);
    if p != Prayer::Fajr {
        assert(spec_day_order(Prayer::Fajr) < spec_day_order(p));
        assert(today.times.slot(Prayer::Fajr)->0 < t);
    }
    if idx > k {
        assert(spec_day_order(b[k].0) < spec_day_order(b[idx].0));
        assert(today.times.slot(b[idx].0) == Some(b[idx].1));
        assert(t < b[idx].1);
    }
    assert(idx >= k);
}

/// A resolved window closes at one of today's events or at tomorrow's Fajr,
/// so within the representable calendar range.
pub proof fn lemma_window_end_is_an_event(now: i64, today: PrayerTimes, tomorrow: PrayerTimes)
    requires
        today.wf(),
        tomorrow.wf(),
    ensures
        spec_resolve(now, today.times, tomorrow.times) matches Some(w) ==> valid_instant(
            w.end as int,
        ),
{
    let b = today.times.entries();
    lemma_last_at_or_before(b, now);
    lemma_entries_upto(today.times, 6);
    if let Some(w) = spec_resolve(now, today.times, tomorrow.times) {
        let idx = last_at_or_before(b, now);
        if today.times.slot(Prayer::Fajr) matches Some(f) && f <= now && 0 <= idx && idx + 1
            < b.len() {
            assert(today.times.slot(b[idx + 1].0) == Some(b[idx + 1].1));
        }
    }
}

impl CurrentWaqt {
    /// `false` during the sunrise-to-Dhuhr gap; `true` while an obligatory
    /// prayer's window is in progress.
    pub fn is_obligatory(&self) -> (r: bool)
        ensures
            r == self.prayer.spec_is_obligatory(),
    {
        self.prayer.is_obligatory()
    }

    /// Resolve the window containing `now`, spanning the day boundary so that
    /// Isha (until the next Fajr) and the after-midnight pre-Fajr stretch both
    /// resolve. `None` only when the required times are missing.
    pub fn resolve(now: i64, today: &PrayerTimes, tomorrow: &PrayerTimes) -> (r: Option<
        CurrentWaqt,
    >)
        ensures
            r == spec_resolve(now, today.times, tomorrow.times),
    {
        let boundaries = today.times.entry_list();
        let first_fajr = match today.get(Prayer::Fajr) {
            Some(t) => t,
            None => {
                return None;
            },
        };
        if now < first_fajr {
            return Some(CurrentWaqt { prayer: Prayer::Isha, end: first_fajr });
        }
        // Scan from the end for the last boundary at or before `now`.
        let n = boundaries.len();
        let mut k = n;
        assert(boundaries@.subrange(0, n as int) =~= boundaries@);
        while k > 0
            invariant
                k <= n,
                n == boundaries@.len(),
                boundaries@ == today.times.entries(),
                forall|j: int| k <= j < n ==> now < #[trigger] boundaries@[j].1,
                last_at_or_before(boundaries@, now) == last_at_or_before(
                    boundaries@.subrange(0, k as int),
                    now,
                ),
            ensures
                k == 0 || boundaries@[k - 1].1 <= now,
            decreases k,
        {
            if boundaries[k - 1].1 <= now {
                break;
            }
            assert(boundaries@.subrange(0, k as int).drop_last() =~= boundaries@.subrange(
                0,
                k - 1,
            ));
            k = k - 1;
        }
        if k == 0 {
            assert(last_at_or_before(boundaries@.subrange(0, 0), now) == -1);
            return None;
        }
        assert(boundaries@.subrange(0, k as int).last() == boundaries@[k - 1]);
        assert(last_at_or_before(boundaries@.subrange(0, k as int), now) == k - 1);
        let idx = k - 1;
        let active = boundaries[idx].0;
        let end = if idx + 1 < n {
            boundaries[idx + 1].1
        } else {
            match tomorrow.get(Prayer::Fajr) {
                Some(t) => t,
                None => {
                    return None;
                },
            }
        };
        Some(CurrentWaqt { prayer: active, end })
    }
}

} // verus!
