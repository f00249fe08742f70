//! The live prayer clock: holds today's and tomorrow's times and the current
//! instant, tells when a new day needs new times, and derives the next event,
//! the countdown, the tray label and when the rendered state must refresh.

use vstd::prelude::*;

use crate::current_waqt::{spec_resolve, CurrentWaqt};
use crate::prayer::Prayer;
use crate::prayer_times::{floor_div, valid_instant, PrayerTimes, MAX_INSTANT, MIN_INSTANT};

verus! {

/// The decimal digits of `n`.
pub open spec fn decimal_digits(n: nat) -> Seq<char>
    decreases n,
{
    if n < 10 {
        seq![((n + 48) as u8) as char]
    } else {
        decimal_digits(n / 10).push((((n % 10) + 48) as u8) as char)
    }
}

/// The number a string of decimal digits denotes.
pub open spec fn digits_value(s: Seq<char>) -> int
    decreases s.len(),
{
    if s.len() == 0 {
        0
    } else {
        digits_value(s.drop_last()) * 10 + (s.last() as int - 48)
    }
}

/// Law: the decimal digits of `n` are digits '0' to '9', at least one, with no
/// leading zero unless `n` is zero, and they read back as `n`.
pub proof fn lemma_decimal_digits_read_back(n: nat)
    ensures
        decimal_digits(n).len() >= 1,
        forall|i: int|
            0 <= i < decimal_digits(n).len() ==> '0' <= #[trigger] decimal_digits(n)[i] <= '9',
        n > 0 ==> decimal_digits(n)[0] != '0',
        digits_value(decimal_digits(n)) == n,
    decreases n,
{
    let x: int = (n % 10) as int;
    let b: u8 = (x + 48) as u8;
    assert(b as int == x + 48);
    assert((b as char) as int == b as int);
    if n < 10 {
        assert(decimal_digits(n) =~= seq![b as char]);
        assert(seq![b as char].drop_last() =~= Seq::<char>::empty());
        assert(digits_value(Seq::<char>::empty()) == 0);
        assert(seq![b as char].last() == b as char);
        assert(digits_value(seq![b as char]) == x);
    } else {
        assert(n == (n / 10) * 10 + x);
        lemma_decimal_digits_read_back(n / 10);
        let d = decimal_digits(n / 10);
        let c = b as char;
        assert(decimal_digits(n) == d.push(c));
        assert(d.push(c).drop_last() =~= d);
        assert(d.push(c).last() == c);
        assert(digits_value(d.push(c)) == digits_value(d) * 10 + x);
        assert(d.push(c)[0] == d[0]);
        assert forall|i: int| 0 <= i < d.push(c).len() implies '0' <= #[trigger] d.push(c)[i] <= '9' by {
            if i < d.len() {
                assert(d.push(c)[i] == d[i]);
            }
        }
    }
}

/// The decimal text of `n`, with a leading `-` when negative.
pub open spec fn decimal(n: int) -> Seq<char> {
    if n < 0 {
        seq!['-'] + decimal_digits((-n) as nat)
    } else {
        decimal_digits(n as nat)
    }
}

/// The text of one decimal digit.
fn digit_text(d: u64) -> (r: &'static str)
    requires
        d < 10,
    ensures
        r@ == seq![((d + 48) as u8) as char],
{
    proof {
        reveal_strlit("0");
        reveal_strlit("1");
        reveal_strlit("2");
        reveal_strlit("3");
        reveal_strlit("4");
        reveal_strlit("5");
        reveal_strlit("6");
        reveal_strlit("7");
        reveal_strlit("8");
        reveal_strlit("9");
    }
    if d == 0 {
        "0"
    } else if d == 1 {
        "1"
    } else if d == 2 {
        "2"
    } else if d == 3 {
        "3"
    } else if d == 4 {
        "4"
    } else if d == 5 {
        "5"
    } else if d == 6 {
        "6"
    } else if d == 7 {
        "7"
    } else if d == 8 {
        "8"
    } else {
        "9"
    }
}

/// The decimal digits of `n`.
fn digits_text(n: u64) -> (r: String)
    ensures
        r@ == decimal_digits(n as nat),
    decreases n,
{
    if n < 10 {
        String::from_str(digit_text(n))
    } else {
        let mut text = digits_text(n / 10);
        text.append(digit_text(n % 10));
        text
    }
}

/// The decimal text of `n`: its digits, with a leading `-` when negative.
fn decimal_text(n: i64) -> (r: String)
    ensures
        r@ == decimal(n as int),
{
    if n < 0 {
        let magnitude: u64 = (-(n as i128)) as u64;
        let mut text = String::from_str("-");
        let digits = digits_text(magnitude);
        text.append(digits.as_str());
        proof {
            reveal_strlit("-");
        }
        text
    } else {
        digits_text(n as u64)
    }
}

/// Stable lowercase key for a prayer.
pub open spec fn spec_prayer_key(p: Prayer) -> &'static str {
    match p {
        Prayer::Fajr => "fajr",
        Prayer::Sunrise => "sunrise",
        Prayer::Dhuhr => "dhuhr",
        Prayer::Asr => "asr",
        Prayer::Maghrib => "maghrib",
        Prayer::Isha => "isha",
    }
}

/// English display name of a prayer.
pub open spec fn spec_prayer_name(p: Prayer) -> &'static str {
    match p {
        Prayer::Fajr => "Fajr",
        Prayer::Sunrise => "Sunrise",
        Prayer::Dhuhr => "Dhuhr",
        Prayer::Asr => "Asr",
        Prayer::Maghrib => "Maghrib",
        Prayer::Isha => "Isha",
    }
}

/// Law: a prayer's key is its English name in lower case, and different
/// prayers have different keys (so the panel can tell them apart).
pub proof fn lemma_prayer_keys(p: Prayer, q: Prayer)
    ensures
        spec_prayer_key(p)@ == crate::adapters::registry::ascii_lowercase(spec_prayer_name(p)@),
        p != q ==> spec_prayer_key(p)@ != spec_prayer_key(q)@,
{
    reveal_strlit("fajr");
    reveal_strlit("sunrise");
    reveal_strlit("dhuhr");
    reveal_strlit("asr");
    reveal_strlit("maghrib");
    reveal_strlit("isha");
    reveal_strlit("Fajr");
    reveal_strlit("Sunrise");
    reveal_strlit("Dhuhr");
    reveal_strlit("Asr");
    reveal_strlit("Maghrib");
    reveal_strlit("Isha");
    let name = spec_prayer_name(p)@;
    assert(spec_prayer_key(p)@ =~= crate::adapters::registry::ascii_lowercase(name));
    if p != q {
        let a = spec_prayer_key(p)@;
        let b = spec_prayer_key(q)@;
        assert(a.len() != b.len() || a[0] != b[0] || a[1] != b[1]);
    }
}

/// Stable lowercase key for a prayer, matching the persisted encoding.
pub fn prayer_key(p: Prayer) -> (r: &'static str)
    ensures
        r == spec_prayer_key(p),
{
    match p {
        Prayer::Fajr => "fajr",
        Prayer::Sunrise => "sunrise",
        Prayer::Dhuhr => "dhuhr",
        Prayer::Asr => "asr",
        Prayer::Maghrib => "maghrib",
        Prayer::Isha => "isha",
    }
}

/// English display name of a prayer.
pub fn prayer_name(p: Prayer) -> (r: &'static str)
    ensures
        r == spec_prayer_name(p),
{
    match p {
        Prayer::Fajr => "Fajr",
        Prayer::Sunrise => "Sunrise",
        Prayer::Dhuhr => "Dhuhr",
        Prayer::Asr => "Asr",
        Prayer::Maghrib => "Maghrib",
        Prayer::Isha => "Isha",
    }
}

/// The compact countdown for `seconds` (negative counts as 0): whole hours and
/// minutes when at least an hour is left ("3h 25m"), else whole minutes when
/// at least a minute is left ("25m"), else seconds ("45s").
pub open spec fn spec_short_countdown(seconds: int) -> Seq<char> {
    let total = if seconds > 0 {
        seconds
    } else {
        0
    };
    let h = total / 3600;
    let m = (total % 3600) / 60;
    let s = total % 60;
    if h > 0 {
        decimal(h) + "h "@ + decimal(m) + "m"@
    } else if m > 0 {
        decimal(m) + "m"@
    } else {
        decimal(s) + "s"@
    }
}

/// Law: the countdown shows the largest unit that is not zero. With an hour
/// or more left it reads the whole hours and the leftover whole minutes; with
/// one to 59 minutes left it reads the whole minutes; only with less than a
/// minute left does it read seconds; nothing left (or a negative count) reads
/// "0s".
pub proof fn lemma_countdown_units(seconds: int)
    ensures
        seconds >= 3600 ==> spec_short_countdown(seconds) == decimal(seconds / 3600) + "h "@
            + decimal((seconds - 3600 * (seconds / 3600)) / 60) + "m"@,
        60 <= seconds < 3600 ==> spec_short_countdown(seconds) == decimal(seconds / 60) + "m"@,
        0 <= seconds < 60 ==> spec_short_countdown(seconds) == decimal(seconds) + "s"@,
        seconds <= 0 ==> spec_short_countdown(seconds) == "0s"@,
{
    if 60 <= seconds < 3600 {
        assert(seconds / 3600 == 0);
        assert(seconds % 3600 == seconds);
        assert(seconds / 60 >= 1);
    }
    if 0 <= seconds < 60 {
        assert(seconds / 3600 == 0);
        assert(seconds % 3600 == seconds);
        assert(seconds / 60 == 0);
        assert(seconds % 60 == seconds);
    }
    if seconds >= 3600 {
        assert(seconds % 3600 == seconds - 3600 * (seconds / 3600));
        assert(seconds / 3600 >= 1);
    }
    if seconds <= 0 {
        reveal_strlit("0s");
        reveal_strlit("s");
        assert(decimal(0) =~= seq!['0']);
        assert(decimal(0) + "s"@ =~= "0s"@);
    }
}

/// Compact relative countdown for the tray label: "3h 25m", "25m", or "45s".
pub fn short_countdown(seconds: i64) -> (r: String)
    ensures
        r@ == spec_short_countdown(seconds as int),
{
    let total = if seconds > 0 {
        seconds
    } else {
        0
    };
    let h = total / 3600;
    let m = (total % 3600) / 60;
    let s = total % 60;
    if h > 0 {
        let mut text = decimal_text(h);
        text.append("h ");
        let minutes = decimal_text(m);
        text.append(minutes.as_str());
        text.append("m");
        text
    } else if m > 0 {
        let mut text = decimal_text(m);
        text.append("m");
        text
    } else {
        let mut text = decimal_text(s);
        text.append("s");
        text
    }
}

/// A prayer and an instant, for the panel: the prayer's key and the instant in
/// milliseconds since the epoch.
#[derive(Debug, Clone, Copy, PartialEq, Eq)]
pub struct PrayerInstant {
    pub prayer: &'static str,
    pub at_ms: i64,
}

/// The current prayer window, for the panel.
#[derive(Debug, Clone, Copy, PartialEq, Eq)]
pub struct WaqtDto {
    pub prayer: &'static str,
    pub end_ms: i64,
    pub is_obligatory: bool,
}

/// The time-derived part of the panel's state.
#[derive(Debug, Clone, PartialEq, Eq)]
pub struct PanelTimes {
    /// Start of the Ishraq window (15 minutes after sunrise), if sunrise is known.
    pub ishraq_ms: Option<i64>,
    /// The upcoming event.
    pub next: Option<PrayerInstant>,
    /// The window in progress.
    pub current_waqt: Option<WaqtDto>,
    /// Today's events in chronological order.
    pub times: Vec<PrayerInstant>,
}

/// Lowest and highest millisecond instants a calendar date-time can denote.
pub open spec fn valid_millis(ms: int) -> bool {
    MIN_INSTANT * 1000 <= ms <= MAX_INSTANT * 1000 + 999
}

/// The whole second containing a millisecond instant.
pub open spec fn second_of(ms: int) -> int {
    ms / 1000
}

/// The upcoming event: the next of today's events after `now`, else the next
/// of tomorrow's.
pub open spec fn spec_next_event(today: PrayerTimes, tomorrow: PrayerTimes, now: i64) -> Option<
    (Prayer, i64),
> {
    match today.spec_next(now) {
        Some(e) => Some(e),
        None => tomorrow.spec_next(now),
    }
}

/// The Ishraq window (15 minutes after sunrise) starts within the calendar
/// range.
pub open spec fn ishraq_fits(today: PrayerTimes) -> bool {
    today.times.slot(Prayer::Sunrise) matches Some(t) ==> valid_instant(t + 15 * 60)
}

/// Whether `today` can be held by a clock: its instants, and the start of
/// its Ishraq window, lie in the representable calendar range.
pub fn clock_can_hold(today: &PrayerTimes) -> (r: bool)
    ensures
        r == (today.wf() && ishraq_fits(*today)),
{
    if !today.in_calendar_range() {
        return false;
    }
    match today.get(Prayer::Sunrise) {
        Some(t) => t + 15 * 60 <= MAX_INSTANT,
        None => true,
    }
}

/// The live clock.
pub struct Clock {
    today: PrayerTimes,
    tomorrow: PrayerTimes,
    now_ms: i64,
    last_day: i64,
    emitted: Option<(i64, Option<Prayer>)>,
}

impl Clock {
    #[verifier::type_invariant]
    spec fn inv(self) -> bool {
        &&& self.today.wf()
        &&& self.tomorrow.wf()
        &&& ishraq_fits(self.today)
        &&& valid_millis(self.now_ms as int)
    }

    pub closed spec fn spec_today(self) -> PrayerTimes {
        self.today
    }

    pub closed spec fn spec_tomorrow(self) -> PrayerTimes {
        self.tomorrow
    }

    pub closed spec fn spec_now_ms(self) -> i64 {
        self.now_ms
    }

    /// The calendar day (in the clock's zone) the times belong to.
    pub closed spec fn spec_last_day(self) -> i64 {
        self.last_day
    }

    /// The last rendered-state signature handed out by `should_emit`.
    pub closed spec fn spec_emitted(self) -> Option<(i64, Option<Prayer>)> {
        self.emitted
    }

    /// The current instant, in whole seconds.
    pub open spec fn now_second(self) -> i64 {
        second_of(self.spec_now_ms() as int) as i64
    }

    /// The rendered-state signature: the day and the upcoming prayer.
    pub open spec fn spec_signature(self) -> (i64, Option<Prayer>) {
        (
            self.spec_last_day(),
            match spec_next_event(self.spec_today(), self.spec_tomorrow(), self.now_second()) {
                Some((p, _)) => Some(p),
                None => None,
            },
        )
    }

    /// A clock at `now_ms` on calendar day `day`, with that day's and the
    /// following day's times.
    pub fn new(today: PrayerTimes, tomorrow: PrayerTimes, now_ms: i64, day: i64) -> (c: Self)
        requires
            today.wf(),
            tomorrow.wf(),
            ishraq_fits(today),
            valid_millis(now_ms as int),
        ensures
            c.spec_today() == today,
            c.spec_tomorrow() == tomorrow,
            c.spec_now_ms() == now_ms,
            c.spec_last_day() == day,
            c.spec_emitted() is None,
    {
        Clock { today, tomorrow, now_ms, last_day: day, emitted: None }
    }

    pub fn today(&self) -> (r: &PrayerTimes)
        ensures
            *r == self.spec_today(),
            r.wf(),
    {
        proof {
            use_type_invariant(self);
        }
        &self.today
    }

    pub fn tomorrow(&self) -> (r: &PrayerTimes)
        ensures
            *r == self.spec_tomorrow(),
            r.wf(),
    {
        proof {
            use_type_invariant(self);
        }
        &self.tomorrow
    }

    pub fn now_ms(&self) -> (r: i64)
        ensures
            r == self.spec_now_ms(),
    {
        self.now_ms
    }

    /// Advance to `now_ms`, which falls on calendar day `day`. Returns `true`
    /// on a day rollover, in which case the caller must supply the new day's
    /// times with [`Clock::set_times`].
    pub fn tick(&mut self, now_ms: i64, day: i64) -> (rolled_over: bool)
        requires
            valid_millis(now_ms as int),
        ensures
            rolled_over == (day != old(self).spec_last_day()),
            final(self).spec_now_ms() == now_ms,
            final(self).spec_last_day() == day,
            final(self).spec_today() == old(self).spec_today(),
            final(self).spec_tomorrow() == old(self).spec_tomorrow(),
            final(self).spec_emitted() == old(self).spec_emitted(),
    {
        proof {
            use_type_invariant(&*self);
        }
        self.now_ms = now_ms;
        if day != self.last_day {
            self.last_day = day;
            true
        } else {
            false
        }
    }

    /// Install freshly computed times for the current day and the next. The
    /// next `should_emit` reports a change, since the times may have moved
    /// while the signature stayed the same.
    pub fn set_times(&mut self, today: PrayerTimes, tomorrow: PrayerTimes)
        requires
            today.wf(),
            tomorrow.wf(),
            ishraq_fits(today),
        ensures
            final(self).spec_today() == today,
            final(self).spec_tomorrow() == tomorrow,
            final(self).spec_now_ms() == old(self).spec_now_ms(),
            final(self).spec_last_day() == old(self).spec_last_day(),
            final(self).spec_emitted() is None,
    {
        proof {
            use_type_invariant(&*self);
        }
        self.today = today;
        self.tomorrow = tomorrow;
        self.emitted = None;
    }

    /// The upcoming prayer: the next one today, else tomorrow's first.
    pub fn next_event(&self) -> (r: Option<(Prayer, i64)>)
        ensures
            r == spec_next_event(self.spec_today(), self.spec_tomorrow(), self.now_second()),
            r matches Some((_, t)) ==> valid_instant(t as int) && self.now_second() < t,
    {
        proof {
            use_type_invariant(self);
        }
        let now = floor_div(self.now_ms, 1000);
        match self.today.next(now) {
            Some(e) => Some(e),
            None => self.tomorrow.next(now),
        }
    }

    /// Whole seconds until the upcoming prayer (0 when there is none).
    pub fn seconds_until_next(&self) -> (r: i64)
        ensures
            r == match spec_next_event(self.spec_today(), self.spec_tomorrow(), self.now_second()) {
                Some((_, t)) => (t * 1000 - self.spec_now_ms()) / 1000,
                None => 0,
            },
            r >= 0,
    {
        proof {
            use_type_invariant(self);
        }
        match self.next_event() {
            Some((_, t)) => (t * 1000 - self.now_ms) / 1000,
            None => 0,
        }
    }

    /// Compact tray label, e.g. "Fajr in 5h 38m"; "Prayer Times" when no
    /// prayer is upcoming.
    pub fn tray_label(&self) -> (r: String)
        ensures
            r@ == match spec_next_event(self.spec_today(), self.spec_tomorrow(), self.now_second()) {
                Some((p, t)) => spec_prayer_name(p)@ + " in "@ + spec_short_countdown(
                    (t * 1000 - self.spec_now_ms()) / 1000,
                ),
                None => "Prayer Times"@,
            },
    {
        match self.next_event() {
            Some((p, _)) => {
                let mut label = String::from_str(prayer_name(p));
                label.append(" in ");
                let countdown = short_countdown(self.seconds_until_next());
                label.append(countdown.as_str());
                label
            },
            None => String::from_str("Prayer Times"),
        }
    }

    /// Display name of the upcoming prayer (what Focus Mode shows when engaged
    /// without a prayer named); "Prayer" when no prayer is upcoming.
    pub fn next_prayer_label(&self) -> (r: String)
        ensures
            r@ == match spec_next_event(self.spec_today(), self.spec_tomorrow(), self.now_second()) {
                Some((p, _)) => spec_prayer_name(p)@,
                None => "Prayer"@,
            },
    {
        match self.next_event() {
            Some((p, _)) => String::from_str(prayer_name(p)),
            None => String::from_str("Prayer"),
        }
    }

    /// The rendered-state signature: the day and the upcoming prayer.
    pub fn signature(&self) -> (r: (i64, Option<Prayer>))
        ensures
            r == self.spec_signature(),
    {
        let next = match self.next_event() {
            Some((p, _)) => Some(p),
            None => None,
        };
        (self.last_day, next)
    }

    /// `true` when the rendered state changed since the last emit (the day
    /// rolled over, the upcoming prayer changed, or new times were set), and
    /// records the new signature.
    pub fn should_emit(&mut self) -> (r: bool)
        ensures
            r == (old(self).spec_emitted() != Some(old(self).spec_signature())),
            final(self).spec_emitted() == Some(old(self).spec_signature()),
            final(self).spec_emitted() == Some(final(self).spec_signature()),
            final(self).spec_today() == old(self).spec_today(),
            final(self).spec_tomorrow() == old(self).spec_tomorrow(),
            final(self).spec_now_ms() == old(self).spec_now_ms(),
            final(self).spec_last_day() == old(self).spec_last_day(),
    {
        proof {
            use_type_invariant(&*self);
        }
        let sig = self.signature();
        let same = match self.emitted {
            Some((day, next)) => day == sig.0 && match (next, sig.1) {
                (Some(a), Some(b)) => a == b,
                (None, None) => true,
                _ => false,
            },
            None => false,
        };
        if same {
            false
        } else {
            self.emitted = Some(sig);
            true
        }
    }

    /// The time-derived part of the panel's state: the Ishraq start, the
    /// upcoming event, the window in progress, and today's events in order.
    pub fn panel_times(&self) -> (r: PanelTimes)
        ensures
            r.ishraq_ms == match self.spec_today().times.slot(Prayer::Sunrise) {
                Some(t) => Some(((t + 15 * 60) * 1000) as i64),
                None => None,
            },
            r.next == match spec_next_event(self.spec_today(), self.spec_tomorrow(), self.now_second()) {
                Some((p, t)) => Some(PrayerInstant { prayer: spec_prayer_key(p), at_ms: (t * 1000) as i64 }),
                None => None,
            },
            r.current_waqt == match spec_resolve(
                self.now_second(),
                self.spec_today().times,
                self.spec_tomorrow().times,
            ) {
                Some(w) => Some(
                    WaqtDto {
                        prayer: spec_prayer_key(w.prayer),
                        end_ms: (w.end * 1000) as i64,
                        is_obligatory: w.prayer.spec_is_obligatory(),
                    },
                ),
                None => None,
            },
            exists|s: Seq<(Prayer, i64)>|
                {
                    &&& self.spec_today().is_chronological_listing(s)
                    &&& s.len() == r.times.len()
                    &&& forall|i: int|
                        0 <= i < s.len() ==> #[trigger] r.times[i] == (PrayerInstant {
                            prayer: spec_prayer_key(s[i].0),
                            at_ms: (s[i].1 * 1000) as i64,
                        })
                },
    {
        proof {
            use_type_invariant(self);
        }
        let now = floor_div(self.now_ms, 1000);
        let ishraq_ms = match self.today.ishraq(15) {
            Some(t) => Some(t * 1000),
            None => None,
        };
        let next = match self.next_event() {
            Some((p, t)) => Some(PrayerInstant { prayer: prayer_key(p), at_ms: t * 1000 }),
            None => None,
        };
        let current_waqt = match CurrentWaqt::resolve(now, &self.today, &self.tomorrow) {
            Some(w) => {
                proof {
                    crate::current_waqt::lemma_window_end_is_an_event(
                        now,
                        self.today,
                        self.tomorrow,
                    );
                }
                Some(
                    WaqtDto {
                        prayer: prayer_key(w.prayer),
                        end_ms: w.end * 1000,
                        is_obligatory: w.is_obligatory(),
                    },
                )
            },
            None => None,
        };
        let ordered = self.today.ordered();
        let mut times: Vec<PrayerInstant> = Vec::new();
        let mut i: usize = 0;
        while i < ordered.len()
            invariant
                i <= ordered.len(),
                times.len() == i,
                self.today.wf(),
                self.today.is_chronological_listing(ordered@),
                forall|k: int|
                    0 <= k < i ==> #[trigger] times[k] == (PrayerInstant {
                        prayer: spec_prayer_key(ordered[k].0),
                        at_ms: (ordered[k].1 * 1000) as i64,
                    }),
            decreases ordered.len() - i,
        {
            let (p, t) = ordered[i];
            assert(self.today.has_event(p, t));
            times.push(PrayerInstant { prayer: prayer_key(p), at_ms: t * 1000 });
            i = i + 1;
        }
        assert(self.today.is_chronological_listing(ordered@) && ordered@.len() == times@.len());
        PanelTimes { ishraq_ms, next, current_waqt, times }
    }
}

} // verus!
