//! A table with at most one value per prayer, walked in the order of the day.

use vstd::prelude::*;

use crate::prayer::{lemma_prayer_at_day_order, prayer_at, spec_day_order, Prayer};

verus! {

/// A table holding at most one value for each of the six daily events.
///
/// Entries are always visited in the order of the day (Fajr first, Isha last),
/// whatever order they were inserted in.
#[derive(Debug, Clone, Copy, PartialEq, Eq, Structural)]
pub struct PrayerMap<V> {
    fajr: Option<V>,
    sunrise: Option<V>,
    dhuhr: Option<V>,
    asr: Option<V>,
    maghrib: Option<V>,
    isha: Option<V>,
}

/// A single entry as a sequence of zero or one pairs.
pub open spec fn entry_seq<V>(p: Prayer, slot: Option<V>) -> Seq<(Prayer, V)> {
    match slot {
        Some(v) => seq![(p, v)],
        None => Seq::empty(),
    }
}

impl<V> PrayerMap<V> {
    /// The value stored for `p`, if any.
    pub closed spec fn slot(self, p: Prayer) -> Option<V> {
        match p {
            Prayer::Fajr => self.fajr,
            Prayer::Sunrise => self.sunrise,
            Prayer::Dhuhr => self.dhuhr,
            Prayer::Asr => self.asr,
            Prayer::Maghrib => self.maghrib,
            Prayer::Isha => self.isha,
        }
    }

    /// The entries of the first `i` positions of the day, in day order.
    pub open spec fn entries_upto(self, i: int) -> Seq<(Prayer, V)>
        decreases i,
    {
        if i <= 0 {
            Seq::empty()
        } else {
            self.entries_upto(i - 1) + entry_seq(prayer_at(i - 1), self.slot(prayer_at(i - 1)))
        }
    }

    /// All entries, in day order.
    pub open spec fn entries(self) -> Seq<(Prayer, V)> {
        self.entries_upto(6)
    }

    /// Number of prayers among the first `i` positions that hold a value.
    pub open spec fn count_upto(self, i: int) -> nat
        decreases i,
    {
        if i <= 0 {
            0
        } else {
            self.count_upto(i - 1) + if self.slot(prayer_at(i - 1)) is Some {
                1nat
            } else {
                0nat
            }
        }
    }

    /// Number of prayers that hold a value.
    pub open spec fn spec_len(self) -> nat {
        self.count_upto(6)
    }

    /// The table with `p` mapped to `v`.
    pub closed spec fn with(self, p: Prayer, v: V) -> Self {
        match p {
            Prayer::Fajr => PrayerMap { fajr: Some(v), ..self },
            Prayer::Sunrise => PrayerMap { sunrise: Some(v), ..self },
            Prayer::Dhuhr => PrayerMap { dhuhr: Some(v), ..self },
            Prayer::Asr => PrayerMap { asr: Some(v), ..self },
            Prayer::Maghrib => PrayerMap { maghrib: Some(v), ..self },
            Prayer::Isha => PrayerMap { isha: Some(v), ..self },
        }
    }

    /// The empty table.
    pub closed spec fn spec_empty() -> Self {
        PrayerMap { fajr: None, sunrise: None, dhuhr: None, asr: None, maghrib: None, isha: None }
    }

    /// Each slot is what `with` stored there.
    pub proof fn lemma_with(self, p: Prayer, v: V)
        ensures
            forall|q: Prayer| #[trigger]
                self.with(p, v).slot(q) == if q == p {
                    Some(v)
                } else {
                    self.slot(q)
                },
    {
    }

    /// The empty table holds nothing.
    pub proof fn lemma_empty()
        ensures
            forall|q: Prayer| #[trigger] Self::spec_empty().slot(q) is None,
    {
    }

    /// Two tables with the same slots are equal.
    pub proof fn lemma_ext(self, other: Self)
        requires
            forall|q: Prayer| #[trigger] self.slot(q) == other.slot(q),
        ensures
            self == other,
    {
        assert(self.slot(Prayer::Fajr) == other.slot(Prayer::Fajr));
        assert(self.slot(Prayer::Sunrise) == other.slot(Prayer::Sunrise));
        assert(self.slot(Prayer::Dhuhr) == other.slot(Prayer::Dhuhr));
        assert(self.slot(Prayer::Asr) == other.slot(Prayer::Asr));
        assert(self.slot(Prayer::Maghrib) == other.slot(Prayer::Maghrib));
        assert(self.slot(Prayer::Isha) == other.slot(Prayer::Isha));
    }

    /// An empty table.
    pub fn new() -> (m: Self)
        ensures
            m == Self::spec_empty(),
            forall|q: Prayer| #[trigger] m.slot(q) is None,
    {
        PrayerMap { fajr: None, sunrise: None, dhuhr: None, asr: None, maghrib: None, isha: None }
    }

    /// Store `v` for `p`, returning the value it replaces.
    pub fn insert(&mut self, p: Prayer, v: V) -> (previous: Option<V>)
        ensures
            previous == old(self).slot(p),
            *final(self) == old(self).with(p, v),
            forall|q: Prayer| #[trigger]
                final(self).slot(q) == if q == p {
                    Some(v)
                } else {
                    old(self).slot(q)
                },
    {
        let slot = match p {
            Prayer::Fajr => &mut self.fajr,
            Prayer::Sunrise => &mut self.sunrise,
            Prayer::Dhuhr => &mut self.dhuhr,
            Prayer::Asr => &mut self.asr,
            Prayer::Maghrib => &mut self.maghrib,
            Prayer::Isha => &mut self.isha,
        };
        let previous = slot.take();
        *slot = Some(v);
        previous
    }

    /// The value stored for `p`, if any.
    pub fn get(&self, p: Prayer) -> (r: Option<&V>)
        ensures
            match r {
                Some(v) => self.slot(p) == Some(*v),
                None => self.slot(p) is None,
            },
    {
        match p {
            Prayer::Fajr => self.fajr.as_ref(),
            Prayer::Sunrise => self.sunrise.as_ref(),
            Prayer::Dhuhr => self.dhuhr.as_ref(),
            Prayer::Asr => self.asr.as_ref(),
            Prayer::Maghrib => self.maghrib.as_ref(),
            Prayer::Isha => self.isha.as_ref(),
        }
    }

    /// Whether a value is stored for `p`.
    pub fn contains_key(&self, p: Prayer) -> (r: bool)
        ensures
            r == self.slot(p) is Some,
    {
        self.get(p).is_some()
    }

    /// Number of prayers that hold a value.
    pub fn len(&self) -> (n: usize)
        ensures
            n == self.spec_len(),
            n <= 6,
    {
        let mut n: usize = 0;
        let mut i: usize = 0;
        while i < 6
            invariant
                i <= 6,
                n == self.count_upto(i as int),
                n <= i,
            decreases 6 - i,
        {
            let p = Prayer::at_index(i);
            if self.contains_key(p) {
                n = n + 1;
            }
            i = i + 1;
        }
        n
    }
}

impl<V: Copy> PrayerMap<V> {
    /// The value stored for `p`, copied out.
    pub fn get_copy(&self, p: Prayer) -> (r: Option<V>)
        ensures
            r == self.slot(p),
    {
        match self.get(p) {
            Some(v) => Some(*v),
            None => None,
        }
    }

    /// All entries, in day order.
    pub fn entry_list(&self) -> (v: Vec<(Prayer, V)>)
        ensures
            v@ == self.entries(),
    {
        let mut v: Vec<(Prayer, V)> = Vec::new();
        let mut i: usize = 0;
        while i < 6
            invariant
                i <= 6,
                v@ == self.entries_upto(i as int),
            decreases 6 - i,
        {
            let p = Prayer::at_index(i);
            match self.get_copy(p) {
                Some(x) => {
                    v.push((p, x));
                },
                None => {},
            }
            assert(v@ =~= self.entries_upto(i + 1));
            i = i + 1;
        }
        v
    }
}

/// Which positions of the day the entries of the first `i` positions come from.
pub proof fn lemma_entries_upto<V>(m: PrayerMap<V>, i: int)
    requires
        0 <= i <= 6,
    ensures
        forall|k: int|
            0 <= k < m.entries_upto(i).len() ==> {
                let e = #[trigger] m.entries_upto(i)[k];
                &&& spec_day_order(e.0) < i
                &&& m.slot(e.0) == Some(e.1)
            },
        forall|k: int, l: int|
            0 <= k < l < m.entries_upto(i).len() ==> spec_day_order(
                #[trigger] m.entries_upto(i)[k].0,
            ) < spec_day_order(#[trigger] m.entries_upto(i)[l].0),
        forall|p: Prayer|
            spec_day_order(p) < i && #[trigger] m.slot(p) is Some ==> exists|k: int|
                0 <= k < m.entries_upto(i).len() && #[trigger] m.entries_upto(i)[k] == (
                    p,
                    m.slot(p)->0,
                ),
    decreases i,
{
    if i > 0 {
        lemma_entries_upto(m, i - 1);
        let prev = m.entries_upto(i - 1);
        let q = prayer_at(i - 1);
        assert(spec_day_order(q) == i - 1);
        assert(m.entries_upto(i) == prev + entry_seq(q, m.slot(q)));
        assert forall|p: Prayer| spec_day_order(p) < i && #[trigger] m.slot(p) is Some implies exists|
            k: int,
        |
            0 <= k < m.entries_upto(i).len() && #[trigger] m.entries_upto(i)[k] == (
                p,
                m.slot(p)->0,
            ) by {
            lemma_prayer_at_day_order(p);
            if spec_day_order(p) < i - 1 {
                let k = choose|k: int|
                    0 <= k < prev.len() && #[trigger] prev[k] == (p, m.slot(p)->0);
                assert(m.entries_upto(i)[k] == prev[k]);
            } else {
                assert(p == q);
                assert(m.entries_upto(i)[prev.len() as int] == (p, m.slot(p)->0));
            }
        }
    }
}

} // verus!
