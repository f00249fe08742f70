//! The computed absolute times for one calendar day at one location.
//!
//! An instant is a whole number of seconds since 1970-01-01T00:00:00Z.

use vstd::prelude::*;

use crate::prayer::{spec_day_order, Prayer};
use crate::prayer_map::PrayerMap;

verus! {

/// Earliest instant a calendar date-time can denote (-262143-01-01T00:00:00Z).
pub const MIN_INSTANT: i64 = -8_334_601_315_200;

/// Latest instant a calendar date-time can denote (+262142-12-31T23:59:59Z).
pub const MAX_INSTANT: i64 = 8_210_266_876_799;

/// Whether `t` lies in the representable calendar range.
pub open spec fn valid_instant(t: int) -> bool {
    MIN_INSTANT <= t <= MAX_INSTANT
}

/// `x / d` rounded toward negative infinity.
pub fn floor_div(x: i64, d: i64) -> (q: i64)
    requires
        d > 0,
        x > i64::MIN + d,
    ensures
        q == x / d,
{
    if x >= 0 {
        x / d
    } else {
        let n = -x + d - 1;
        let t = n / d;
        let q = -t;
        assert(q == x / d) by (nonlinear_arith)
            requires
                x < 0,
                d > 0,
                n == -x + d - 1,
                t == n / d,
                q == -t,
        ;
        q
    }
}

/// `(p, t)` comes strictly before `(q, u)`: earlier in time, or at the same
/// instant and earlier in the day's order.
pub open spec fn event_before(p: Prayer, t: i64, q: Prayer, u: i64) -> bool {
    t < u || (t == u && spec_day_order(p) < spec_day_order(q))
}

/// The computed absolute times for one calendar day at one location.
#[derive(Debug, Clone, Copy, PartialEq, Eq)]
pub struct PrayerTimes {
    /// The calendar day these times belong to (its local midnight).
    pub date: i64,
    /// Absolute instant for each prayer. All six are present unless a polar
    /// edge case leaves one undefined.
    pub times: PrayerMap<i64>,
}

/// Six pairwise distinct prayers name every prayer.
pub proof fn lemma_six_distinct_cover(s: Seq<Prayer>, p: Prayer)
    requires
        s.len() == 6,
        forall|i: int, j: int| 0 <= i < j < 6 ==> #[trigger] s[i] != #[trigger] s[j],
    ensures
        exists|i: int| 0 <= i < 6 && s[i] == p,
{
    if forall|i: int| 0 <= i < 6 ==> s[i] != p {
        assert(s[0] != s[1] && s[0] != s[2] && s[0] != s[3] && s[0] != s[4] && s[0] != s[5]);
        assert(s[1] != s[2] && s[1] != s[3] && s[1] != s[4] && s[1] != s[5]);
        assert(s[2] != s[3] && s[2] != s[4] && s[2] != s[5]);
        assert(s[3] != s[4] && s[3] != s[5]);
        assert(s[4] != s[5]);
        assert(false);
    }
}

impl PrayerTimes {
    /// Every instant lies in the representable calendar range.
    pub open spec fn wf(self) -> bool {
        &&& valid_instant(self.date as int)
        &&& forall|p: Prayer| #[trigger]
            self.times.slot(p) is Some ==> valid_instant(self.times.slot(p)->0 as int)
    }

    /// Whether `(p, t)` is one of the day's events.
    pub open spec fn has_event(self, p: Prayer, t: i64) -> bool {
        self.times.slot(p) == Some(t)
    }

    pub fn new(date: i64, times: PrayerMap<i64>) -> (r: Self)
        ensures
            r.date == date,
            r.times == times,
    {
        PrayerTimes { date, times }
    }

    /// `(p, t)` is the next event strictly after `now`: the earliest such
    /// instant, and of events at that instant the first in the day.
    pub open spec fn is_next_after(self, now: i64, p: Prayer, t: i64) -> bool {
        &&& self.has_event(p, t)
        &&& now < t
        &&& forall|q: Prayer|
            #[trigger] self.times.slot(q) matches Some(u) ==> (now < u && q != p ==> event_before(
                p,
                t,
                q,
                u,
            ))
    }

    /// The next event strictly after `now`, if any.
    pub open spec fn spec_next(self, now: i64) -> Option<(Prayer, i64)> {
        if exists|e: (Prayer, i64)| self.is_next_after(now, e.0, e.1) {
            Some(choose|e: (Prayer, i64)| self.is_next_after(now, e.0, e.1))
        } else {
            None
        }
    }

    /// At most one event is the next one after `now`.
    pub proof fn lemma_next_unique(self, now: i64, a: (Prayer, i64), b: (Prayer, i64))
        requires
            self.is_next_after(now, a.0, a.1),
            self.is_next_after(now, b.0, b.1),
        ensures
            a == b,
    {
        if a.0 != b.0 {
            assert(self.times.slot(b.0) == Some(b.1));
            assert(self.times.slot(a.0) == Some(a.1));
            assert(event_before(a.0, a.1, b.0, b.1));
            assert(event_before(b.0, b.1, a.0, a.1));
        }
    }

    /// `s` lists the day's events in chronological order: sorted by instant,
    /// ties in the day's order, holding exactly the day's events.
    pub open spec fn is_chronological_listing(self, s: Seq<(Prayer, i64)>) -> bool {
        &&& forall|i: int, j: int|
            0 <= i < j < s.len() ==> event_before(
                #[trigger] s[i].0,
                s[i].1,
                #[trigger] s[j].0,
                s[j].1,
            )
        &&& forall|i: int| 0 <= i < s.len() ==> self.has_event(#[trigger] s[i].0, s[i].1)
        &&& forall|p: Prayer| #[trigger]
            self.times.slot(p) is Some ==> exists|i: int| 0 <= i < s.len() && s[i].0 == p
    }

    /// Whether every instant lies in the representable calendar range.
    pub fn in_calendar_range(&self) -> (r: bool)
        ensures
            r == self.wf(),
    {
        if self.date < MIN_INSTANT || self.date > MAX_INSTANT {
            return false;
        }
        let mut i: usize = 0;
        while i < 6
            invariant
                i <= 6,
                valid_instant(self.date as int),
                forall|p: Prayer|
                    spec_day_order(p) < i ==> (#[trigger] self.times.slot(p) is Some
                        ==> valid_instant(self.times.slot(p)->0 as int)),
            decreases 6 - i,
        {
            let p = Prayer::at_index(i);
            match self.get(p) {
                Some(t) => {
                    if t < MIN_INSTANT || t > MAX_INSTANT {
                        return false;
                    }
                },
                None => {},
            }
            i = i + 1;
        }
        proof {
            assert forall|p: Prayer| #[trigger] self.times.slot(p) is Some implies valid_instant(
                self.times.slot(p)->0 as int,
            ) by {
                crate::prayer::lemma_prayer_at_day_order(p);
            }
        }
        true
    }

    /// Absolute instant for `prayer`, if present.
    pub fn get(&self, prayer: Prayer) -> (r: Option<i64>)
        ensures
            r == self.times.slot(prayer),
    {
        self.times.get_copy(prayer)
    }

    /// The next prayer strictly after `now`: the earliest such instant, and of
    /// events at that same instant the first in the day. `None` when every
    /// time today is at or before `now`.
    pub fn next(&self, now: i64) -> (r: Option<(Prayer, i64)>)
        ensures
            r == self.spec_next(now),
            r is None <==> forall|q: Prayer| #[trigger]
                self.times.slot(q) matches Some(u) ==> u <= now,
            r matches Some((p, t)) ==> {
                &&& self.has_event(p, t)
                &&& now < t
                &&& forall|q: Prayer|
                    #[trigger] self.times.slot(q) matches Some(u) ==> (now < u && q != p
                        ==> event_before(p, t, q, u))
            },
    {
        let mut best: Option<(Prayer, i64)> = None;
        let mut i: usize = 0;
        while i < 6
            invariant
                i <= 6,
                best is None <==> forall|q: Prayer|
                    spec_day_order(q) < i ==> (#[trigger] self.times.slot(q) matches Some(u)
                        ==> u <= now),
                best matches Some((p, t)) ==> {
                    &&& self.has_event(p, t)
                    &&& now < t
                    &&& spec_day_order(p) < i
                    &&& forall|q: Prayer|
                        spec_day_order(q) < i ==> (#[trigger] self.times.slot(q) matches Some(u)
                            ==> (now < u && q != p ==> event_before(p, t, q, u)))
                },
            decreases 6 - i,
        {
            let q = Prayer::at_index(i);
            match self.get(q) {
                Some(u) => {
                    if now < u {
                        match best {
                            Some((_, t)) => {
                                if u < t {
                                    best = Some((q, u));
                                }
                            },
                            None => {
                                best = Some((q, u));
                            },
                        }
                    }
                },
                None => {},
            }
            i = i + 1;
        }
        proof {
            match best {
                Some(e) => {
                    assert(self.is_next_after(now, e.0, e.1));
                    let c = choose|c: (Prayer, i64)| self.is_next_after(now, c.0, c.1);
                    self.lemma_next_unique(now, c, e);
                },
                None => {
                    if exists|e: (Prayer, i64)| self.is_next_after(now, e.0, e.1) {
                        let c = choose|c: (Prayer, i64)| self.is_next_after(now, c.0, c.1);
                        assert(self.times.slot(c.0) == Some(c.1));
                    }
                },
            }
        }
        best
    }

    /// The most recent prayer at or before `now`: the latest such instant, and
    /// of events at that same instant the last in the day. `None` when `now`
    /// precedes every time today.
    pub fn current(&self, now: i64) -> (r: Option<(Prayer, i64)>)
        ensures
            r is None <==> forall|q: Prayer| #[trigger]
                self.times.slot(q) matches Some(u) ==> now < u,
            r matches Some((p, t)) ==> {
                &&& self.has_event(p, t)
                &&& t <= now
                &&& forall|q: Prayer|
                    #[trigger] self.times.slot(q) matches Some(u) ==> (u <= now && q != p
                        ==> event_before(q, u, p, t))
            },
    {
        let mut best: Option<(Prayer, i64)> = None;
        let mut i: usize = 0;
        while i < 6
            invariant
                i <= 6,
                best is None <==> forall|q: Prayer|
                    spec_day_order(q) < i ==> (#[trigger] self.times.slot(q) matches Some(u)
                        ==> now < u),
                best matches Some((p, t)) ==> {
                    &&& self.has_event(p, t)
                    &&& t <= now
                    &&& spec_day_order(p) < i
                    &&& forall|q: Prayer|
                        spec_day_order(q) < i ==> (#[trigger] self.times.slot(q) matches Some(u)
                            ==> (u <= now && q != p ==> event_before(q, u, p, t)))
                },
            decreases 6 - i,
        {
            let q = Prayer::at_index(i);
            match self.get(q) {
                Some(u) => {
                    if u <= now {
                        match best {
                            Some((_, t)) => {
                                if t <= u {
                                    best = Some((q, u));
                                }
                            },
                            None => {
                                best = Some((q, u));
                            },
                        }
                    }
                },
                None => {},
            }
            i = i + 1;
        }
        best
    }

    /// Times in chronological order; events at the same instant keep the day's
    /// order.
    pub fn ordered(&self) -> (r: Vec<(Prayer, i64)>)
        ensures
            self.is_chronological_listing(r@),
    {
        let mut r: Vec<(Prayer, i64)> = Vec::new();
        let mut round: usize = 0;
        // Each round appends the earliest event after the last one appended.
        while round < 6
            invariant
                round <= 6,
                r.len() <= round,
                forall|i: int, j: int|
                    0 <= i < j < r.len() ==> event_before(
                        #[trigger] r[i].0,
                        r[i].1,
                        #[trigger] r[j].0,
                        r[j].1,
                    ),
                forall|i: int| 0 <= i < r.len() ==> self.has_event(#[trigger] r[i].0, r[i].1),
                // What is appended so far is every event up to the last appended.
                r.len() > 0 ==> forall|p: Prayer| #[trigger]
                    self.times.slot(p) matches Some(u) ==> (!event_before(
                        r[r.len() - 1].0,
                        r[r.len() - 1].1,
                        p,
                        u,
                    ) ==> exists|i: int| 0 <= i < r.len() && r[i].0 == p),
                r.len() < round ==> forall|p: Prayer| #[trigger]
                    self.times.slot(p) is Some ==> exists|i: int| 0 <= i < r.len() && r[i].0 == p,
                forall|i: int, j: int| 0 <= i < j < r.len() ==> #[trigger] r[i].0 != #[trigger] r[j].0,
            decreases 6 - round,
        {
            let last = if r.len() > 0 {
                Some(r[r.len() - 1])
            } else {
                None
            };
            let mut pick: Option<(Prayer, i64)> = None;
            let mut i: usize = 0;
            while i < 6
                invariant
                    i <= 6,
                    pick matches Some((p, t)) ==> {
                        &&& self.has_event(p, t)
                        &&& spec_day_order(p) < i
                        &&& (last matches Some((lp, lt)) ==> event_before(lp, lt, p, t))
                        &&& forall|q: Prayer|
                            spec_day_order(q) < i ==> (#[trigger] self.times.slot(q) matches Some(
                                u,
                            ) ==> ((last matches Some((lp, lt)) ==> event_before(lp, lt, q, u))
                                ==> (q == p || event_before(p, t, q, u))))
                    },
                    pick is None ==> forall|q: Prayer|
                        spec_day_order(q) < i ==> (#[trigger] self.times.slot(q) matches Some(u)
                            ==> !(last matches Some((lp, lt)) ==> event_before(lp, lt, q, u))),
                decreases 6 - i,
            {
                let q = Prayer::at_index(i);
                match self.get(q) {
                    Some(u) => {
                        let after_last = match last {
                            Some((lp, lt)) => lt < u || (lt == u && lp.day_order() < q.day_order()),
                            None => true,
                        };
                        if after_last {
                            match pick {
                                Some((_, t)) => {
                                    if u < t {
                                        pick = Some((q, u));
                                    }
                                },
                                None => {
                                    pick = Some((q, u));
                                },
                            }
                        }
                    },
                    None => {},
                }
                i = i + 1;
            }
            let ghost old_r = r@;
            match pick {
                Some(e) => {
                    r.push(e);
                    proof {
                        assert forall|p: Prayer| #[trigger]
                            self.times.slot(p) matches Some(u) && !event_before(e.0, e.1, p, u)
                            implies exists|i: int| 0 <= i < r.len() && r[i].0 == p by {
                            let u = self.times.slot(p)->0;
                            if p == e.0 {
                                assert(r[r.len() - 1].0 == p);
                            } else {
                                assert(event_before(p, u, e.0, e.1));
                                let not_after_last = match last {
                                    Some((lp, lt)) => !event_before(lp, lt, p, u),
                                    None => false,
                                };
                                assert(not_after_last);
                                let i = choose|i: int| 0 <= i < old_r.len() && old_r[i].0 == p;
                                assert(r[i].0 == p);
                            }
                        }
                    }
                },
                None => {},
            }
            round = round + 1;
        }
        if r.len() == 6 {
            proof {
                assert forall|p: Prayer| #[trigger] self.times.slot(p) is Some implies exists|i: int|
                    0 <= i < r.len() && r[i].0 == p by {
                    let names = r@.map_values(|e: (Prayer, i64)| e.0);
                    lemma_six_distinct_cover(names, p);
                    let i = choose|i: int| 0 <= i < 6 && #[trigger] names[i] == p;
                    assert(r[i].0 == p);
                }
            }
        }
        assert(self.is_chronological_listing(r@));
        r
    }

    /// Start of the Ishraq/Duha window: `offset_minutes` after sunrise. `None`
    /// when sunrise is undefined.
    pub fn ishraq(&self, offset_minutes: i64) -> (r: Option<i64>)
        requires
            self.wf(),
            self.times.slot(Prayer::Sunrise) matches Some(t) ==> valid_instant(
                t + offset_minutes * 60,
            ),
        ensures
            r == match self.times.slot(Prayer::Sunrise) {
                Some(t) => Some((t + offset_minutes * 60) as i64),
                None => None,
            },
    {
        match self.get(Prayer::Sunrise) {
            Some(t) => {
                assert(valid_instant(t + offset_minutes * 60));
                Some(t + offset_minutes * 60)
            },
            None => None,
        }
    }
}

} // verus!
