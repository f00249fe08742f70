//! Central catalog of calculation methods. Resolves persisted ids back to
//! adapters, applies the Hanafi Asr modifier, and maps ISO country codes to a
//! default method.

use vstd::prelude::*;

use crate::adapters::{
    CalculationMethodAdapter, DiyanetAdapter, EgyptianAdapter, HanafiAsrModifier, IsnaAdapter,
    JakimAdapter, KarachiAdapter, KemenagAdapter, ManualAdapter, MoonsightingCommitteeAdapter,
    MwlAdapter, UmmAlQuraAdapter,
};
use crate::coordinates::Coordinates;
use crate::high_latitude::HighLatitudeRule;
use crate::params::CalculationParameters;
use crate::prayer::Prayer;
use crate::prayer_map::PrayerMap;

verus! {

/// One base method: a built-in method or user-supplied parameters.
#[derive(Debug, Clone, Copy)]
pub enum BaseMethod {
    Diyanet(DiyanetAdapter),
    Mwl(MwlAdapter),
    Isna(IsnaAdapter),
    UmmAlQura(UmmAlQuraAdapter),
    Egyptian(EgyptianAdapter),
    Karachi(KarachiAdapter),
    Jakim(JakimAdapter),
    Kemenag(KemenagAdapter),
    Moonsighting(MoonsightingCommitteeAdapter),
    Manual(ManualAdapter),
}

impl CalculationMethodAdapter for BaseMethod {
    open spec fn spec_id(&self) -> Seq<char> {
        match self {
            BaseMethod::Diyanet(a) => a.spec_id(),
            BaseMethod::Mwl(a) => a.spec_id(),
            BaseMethod::Isna(a) => a.spec_id(),
            BaseMethod::UmmAlQura(a) => a.spec_id(),
            BaseMethod::Egyptian(a) => a.spec_id(),
            BaseMethod::Karachi(a) => a.spec_id(),
            BaseMethod::Jakim(a) => a.spec_id(),
            BaseMethod::Kemenag(a) => a.spec_id(),
            BaseMethod::Moonsighting(a) => a.spec_id(),
            BaseMethod::Manual(a) => a.spec_id(),
        }
    }

    open spec fn spec_display_name(&self) -> Seq<char> {
        match self {
            BaseMethod::Diyanet(a) => a.spec_display_name(),
            BaseMethod::Mwl(a) => a.spec_display_name(),
            BaseMethod::Isna(a) => a.spec_display_name(),
            BaseMethod::UmmAlQura(a) => a.spec_display_name(),
            BaseMethod::Egyptian(a) => a.spec_display_name(),
            BaseMethod::Karachi(a) => a.spec_display_name(),
            BaseMethod::Jakim(a) => a.spec_display_name(),
            BaseMethod::Kemenag(a) => a.spec_display_name(),
            BaseMethod::Moonsighting(a) => a.spec_display_name(),
            BaseMethod::Manual(a) => a.spec_display_name(),
        }
    }

    open spec fn spec_summary(&self) -> Seq<char> {
        match self {
            BaseMethod::Diyanet(a) => a.spec_summary(),
            BaseMethod::Mwl(a) => a.spec_summary(),
            BaseMethod::Isna(a) => a.spec_summary(),
            BaseMethod::UmmAlQura(a) => a.spec_summary(),
            BaseMethod::Egyptian(a) => a.spec_summary(),
            BaseMethod::Karachi(a) => a.spec_summary(),
            BaseMethod::Jakim(a) => a.spec_summary(),
            BaseMethod::Kemenag(a) => a.spec_summary(),
            BaseMethod::Moonsighting(a) => a.spec_summary(),
            BaseMethod::Manual(a) => a.spec_summary(),
        }
    }

    open spec fn spec_resolve(&self, coordinates: Coordinates) -> CalculationParameters {
        match self {
            BaseMethod::Diyanet(a) => a.spec_resolve(coordinates),
            BaseMethod::Mwl(a) => a.spec_resolve(coordinates),
            BaseMethod::Isna(a) => a.spec_resolve(coordinates),
            BaseMethod::UmmAlQura(a) => a.spec_resolve(coordinates),
            BaseMethod::Egyptian(a) => a.spec_resolve(coordinates),
            BaseMethod::Karachi(a) => a.spec_resolve(coordinates),
            BaseMethod::Jakim(a) => a.spec_resolve(coordinates),
            BaseMethod::Kemenag(a) => a.spec_resolve(coordinates),
            BaseMethod::Moonsighting(a) => a.spec_resolve(coordinates),
            BaseMethod::Manual(a) => a.spec_resolve(coordinates),
        }
    }

    fn id(&self) -> (r: String) {
        match self {
            BaseMethod::Diyanet(a) => a.id(),
            BaseMethod::Mwl(a) => a.id(),
            BaseMethod::Isna(a) => a.id(),
            BaseMethod::UmmAlQura(a) => a.id(),
            BaseMethod::Egyptian(a) => a.id(),
            BaseMethod::Karachi(a) => a.id(),
            BaseMethod::Jakim(a) => a.id(),
            BaseMethod::Kemenag(a) => a.id(),
            BaseMethod::Moonsighting(a) => a.id(),
            BaseMethod::Manual(a) => a.id(),
        }
    }

    fn display_name(&self) -> (r: String) {
        match self {
            BaseMethod::Diyanet(a) => a.display_name(),
            BaseMethod::Mwl(a) => a.display_name(),
            BaseMethod::Isna(a) => a.display_name(),
            BaseMethod::UmmAlQura(a) => a.display_name(),
            BaseMethod::Egyptian(a) => a.display_name(),
            BaseMethod::Karachi(a) => a.display_name(),
            BaseMethod::Jakim(a) => a.display_name(),
            BaseMethod::Kemenag(a) => a.display_name(),
            BaseMethod::Moonsighting(a) => a.display_name(),
            BaseMethod::Manual(a) => a.display_name(),
        }
    }

    fn summary(&self) -> (r: String) {
        match self {
            BaseMethod::Diyanet(a) => a.summary(),
            BaseMethod::Mwl(a) => a.summary(),
            BaseMethod::Isna(a) => a.summary(),
            BaseMethod::UmmAlQura(a) => a.summary(),
            BaseMethod::Egyptian(a) => a.summary(),
            BaseMethod::Karachi(a) => a.summary(),
            BaseMethod::Jakim(a) => a.summary(),
            BaseMethod::Kemenag(a) => a.summary(),
            BaseMethod::Moonsighting(a) => a.summary(),
            BaseMethod::Manual(a) => a.summary(),
        }
    }

    fn resolve(&self, coordinates: Coordinates) -> (p: CalculationParameters) {
        match self {
            BaseMethod::Diyanet(a) => a.resolve(coordinates),
            BaseMethod::Mwl(a) => a.resolve(coordinates),
            BaseMethod::Isna(a) => a.resolve(coordinates),
            BaseMethod::UmmAlQura(a) => a.resolve(coordinates),
            BaseMethod::Egyptian(a) => a.resolve(coordinates),
            BaseMethod::Karachi(a) => a.resolve(coordinates),
            BaseMethod::Jakim(a) => a.resolve(coordinates),
            BaseMethod::Kemenag(a) => a.resolve(coordinates),
            BaseMethod::Moonsighting(a) => a.resolve(coordinates),
            BaseMethod::Manual(a) => a.resolve(coordinates),
        }
    }
}

/// A method as selected in settings: a base method, optionally with Hanafi Asr.
pub enum SelectedMethod {
    Plain(BaseMethod),
    Hanafi(HanafiAsrModifier<BaseMethod>),
}

impl CalculationMethodAdapter for SelectedMethod {
    open spec fn spec_id(&self) -> Seq<char> {
        match self {
            SelectedMethod::Plain(a) => a.spec_id(),
            SelectedMethod::Hanafi(a) => a.spec_id(),
        }
    }

    open spec fn spec_display_name(&self) -> Seq<char> {
        match self {
            SelectedMethod::Plain(a) => a.spec_display_name(),
            SelectedMethod::Hanafi(a) => a.spec_display_name(),
        }
    }

    open spec fn spec_summary(&self) -> Seq<char> {
        match self {
            SelectedMethod::Plain(a) => a.spec_summary(),
            SelectedMethod::Hanafi(a) => a.spec_summary(),
        }
    }

    open spec fn spec_resolve(&self, coordinates: Coordinates) -> CalculationParameters {
        match self {
            SelectedMethod::Plain(a) => a.spec_resolve(coordinates),
            SelectedMethod::Hanafi(a) => a.spec_resolve(coordinates),
        }
    }

    fn id(&self) -> (r: String) {
        match self {
            SelectedMethod::Plain(a) => a.id(),
            SelectedMethod::Hanafi(a) => a.id(),
        }
    }

    fn display_name(&self) -> (r: String) {
        match self {
            SelectedMethod::Plain(a) => a.display_name(),
            SelectedMethod::Hanafi(a) => a.display_name(),
        }
    }

    fn summary(&self) -> (r: String) {
        match self {
            SelectedMethod::Plain(a) => a.summary(),
            SelectedMethod::Hanafi(a) => a.summary(),
        }
    }

    fn resolve(&self, coordinates: Coordinates) -> (p: CalculationParameters) {
        match self {
            SelectedMethod::Plain(a) => a.resolve(coordinates),
            SelectedMethod::Hanafi(a) => a.resolve(coordinates),
        }
    }
}

/// The built-in methods in display order (Manual excluded).
pub open spec fn spec_built_in() -> Seq<BaseMethod> {
    seq![
        BaseMethod::Diyanet(DiyanetAdapter),
        BaseMethod::Mwl(MwlAdapter),
        BaseMethod::Isna(IsnaAdapter),
        BaseMethod::UmmAlQura(UmmAlQuraAdapter),
        BaseMethod::Egyptian(EgyptianAdapter),
        BaseMethod::Karachi(KarachiAdapter),
        BaseMethod::Jakim(JakimAdapter),
        BaseMethod::Kemenag(KemenagAdapter),
        BaseMethod::Moonsighting(MoonsightingCommitteeAdapter),
    ]
}

/// The first of `s` whose id is `id`.
pub open spec fn first_with_id(s: Seq<BaseMethod>, id: Seq<char>) -> Option<BaseMethod>
    decreases s.len(),
{
    if s.len() == 0 {
        None
    } else if s[0].spec_id() == id {
        Some(s[0])
    } else {
        first_with_id(s.drop_first(), id)
    }
}

/// The base method a persisted selection names: Manual with the supplied
/// parameters (none without them), else the built-in with that id.
pub open spec fn spec_base_for(method_id: Seq<char>, manual: Option<CalculationParameters>) -> Option<
    BaseMethod,
> {
    if method_id == "manual"@ {
        match manual {
            Some(p) => Some(BaseMethod::Manual(ManualAdapter { parameters: p })),
            None => None,
        }
    } else {
        first_with_id(spec_built_in(), method_id)
    }
}

/// The upper-case form of `s` as `str::to_uppercase` computes it.
pub uninterp spec fn spec_to_uppercase(s: Seq<char>) -> Seq<char>;

/// ASCII letters a-z mapped to A-Z, every other character unchanged.
pub open spec fn ascii_uppercase(s: Seq<char>) -> Seq<char> {
    s.map_values(
        |c: char|
            if 'a' <= c && c <= 'z' {
                ((c as int) - 32) as char
            } else {
                c
            },
    )
}

/// ASCII letters A-Z mapped to a-z, every other character unchanged.
pub open spec fn ascii_lowercase(s: Seq<char>) -> Seq<char> {
    s.map_values(
        |c: char|
            if 'A' <= c && c <= 'Z' {
                ((c as int) + 32) as char
            } else {
                c
            },
    )
}

/// Law: the country lookup ignores ASCII case. A code maps to the same method
/// as its upper-case and its lower-case form, so for ASCII codes
/// `method_id_for_country` gives "us", "Us" and "US" the same answer.
pub proof fn lemma_country_lookup_ignores_case(code: Seq<char>)
    ensures
        spec_country_method_id(ascii_uppercase(ascii_uppercase(code))) == spec_country_method_id(
            ascii_uppercase(code),
        ),
        spec_country_method_id(ascii_uppercase(ascii_lowercase(code))) == spec_country_method_id(
            ascii_uppercase(code),
        ),
{
    assert(ascii_uppercase(ascii_uppercase(code)) =~= ascii_uppercase(code));
    assert(ascii_uppercase(ascii_lowercase(code)) =~= ascii_uppercase(code));
}

/// `str::to_uppercase`: the Unicode upper-case mapping of every character.
/// Its result is named `spec_to_uppercase`; only its ASCII case is stated:
/// on an ASCII string it maps a-z to A-Z and keeps every other character.
#[verifier::external_body]
fn str_to_uppercase(s: &str) -> (r: String)
    ensures
        r@ == spec_to_uppercase(s@),
        vstd::string::is_ascii(s) ==> r@ == ascii_uppercase(s@),
{
    s.to_uppercase()
}

/// The default method id of an upper-cased ISO 3166-1 alpha-2 country code.
pub open spec fn spec_country_method_id(upper: Seq<char>) -> Seq<char> {
    if upper == "TR"@ {
        "diyanet"@
    } else if upper == "US"@ || upper == "CA"@ {
        "isna"@
    } else if upper == "SA"@ {
        "ummalqura"@
    } else if upper == "EG"@ {
        "egyptian"@
    } else if upper == "PK"@ || upper == "IN"@ || upper == "BD"@ || upper == "AF"@ {
        "karachi"@
    } else if upper == "MY"@ {
        "jakim"@
    } else if upper == "ID"@ {
        "kemenag"@
    } else {
        "mwl"@
    }
}

/// Whether `s` reads exactly `lit`.
fn string_is(s: &String, lit: &str) -> (r: bool)
    ensures
        r == (s@ == lit@),
{
    *s == String::from_str(lit)
}

/// What `first_with_id` finds has the id looked for and comes from the list;
/// when it finds nothing, no method in the list has that id.
pub proof fn lemma_first_with_id(s: Seq<BaseMethod>, id: Seq<char>)
    ensures
        first_with_id(s, id) matches Some(m) ==> m.spec_id() == id && s.contains(m),
        first_with_id(s, id) is None ==> forall|i: int| 0 <= i < s.len() ==> #[trigger] s[i].spec_id() != id,
    decreases s.len(),
{
    if s.len() > 0 && s[0].spec_id() != id {
        lemma_first_with_id(s.drop_first(), id);
        if let Some(m) = first_with_id(s.drop_first(), id) {
            let k = choose|k: int| 0 <= k < s.drop_first().len() && s.drop_first()[k] == m;
            assert(s[k + 1] == m);
        }
        assert forall|i: int| 0 <= i < s.len() && first_with_id(s, id) is None implies #[trigger] s[i].spec_id() != id by {
            if i > 0 {
                assert(s[i] == s.drop_first()[i - 1]);
            }
        }
    }
}

/// The first method with a given id is the one at the first index holding it.
proof fn lemma_first_with_id_at(s: Seq<BaseMethod>, id: Seq<char>, i: int)
    requires
        0 <= i < s.len(),
        s[i].spec_id() == id,
        forall|j: int| 0 <= j < i ==> #[trigger] s[j].spec_id() != id,
    ensures
        first_with_id(s, id) == Some(s[i]),
    decreases i,
{
    if i > 0 {
        assert forall|j: int| 0 <= j < i - 1 implies #[trigger] s.drop_first()[j].spec_id() != id by {
            assert(s.drop_first()[j] == s[j + 1]);
        }
        lemma_first_with_id_at(s.drop_first(), id, i - 1);
    }
}

/// Law: the built-in catalog holds nine methods with pairwise distinct ids,
/// none of them "manual"; so looking up the id of a built-in finds exactly
/// that built-in.
pub proof fn lemma_built_in_catalog()
    ensures
        spec_built_in().len() == 9,
        forall|i: int| 0 <= i < 9 ==> #[trigger] spec_built_in()[i].spec_id() != "manual"@,
        forall|i: int, j: int|
            0 <= i < 9 && 0 <= j < 9 && i != j ==> #[trigger] spec_built_in()[i].spec_id()
                != #[trigger] spec_built_in()[j].spec_id(),
        forall|i: int|
            0 <= i < 9 ==> first_with_id(spec_built_in(), #[trigger] spec_built_in()[i].spec_id())
                == Some(spec_built_in()[i]),
{
    let s = spec_built_in();
    reveal_strlit("manual");
    reveal_strlit("diyanet");
    reveal_strlit("mwl");
    reveal_strlit("isna");
    reveal_strlit("ummalqura");
    reveal_strlit("egyptian");
    reveal_strlit("karachi");
    reveal_strlit("jakim");
    reveal_strlit("kemenag");
    reveal_strlit("moonsighting");
    let ids = seq![
        "diyanet"@,
        "mwl"@,
        "isna"@,
        "ummalqura"@,
        "egyptian"@,
        "karachi"@,
        "jakim"@,
        "kemenag"@,
        "moonsighting"@,
    ];
    assert forall|i: int| 0 <= i < 9 implies #[trigger] s[i].spec_id() == ids[i] by {}
    // Distinct ids: by length, and at equal length by a character.
    assert forall|i: int, j: int| 0 <= i < 9 && 0 <= j < 9 && i != j implies #[trigger] ids[i]
        != #[trigger] ids[j] by {
        if ids[i].len() == ids[j].len() {
            assert(ids[i][0] != ids[j][0] || ids[i][1] != ids[j][1]);
        }
    }
    assert forall|i: int| 0 <= i < 9 implies #[trigger] ids[i] != "manual"@ by {
        assert(ids[i].len() != 6);
    }
    assert forall|i: int| 0 <= i < 9 implies first_with_id(s, #[trigger] s[i].spec_id()) == Some(
        s[i],
    ) by {
        assert forall|j: int| 0 <= j < i implies #[trigger] s[j].spec_id() != s[i].spec_id() by {
            assert(ids[j] != ids[i]);
        }
        lemma_first_with_id_at(s, s[i].spec_id(), i);
    }
}

/// `p` carries the given angles (thousandths of a degree), interval, shadow
/// factor (thousandths), method offsets and high-latitude rule.
pub open spec fn carries(
    p: CalculationParameters,
    fajr: int,
    isha: Option<i32>,
    isha_fixed: Option<i32>,
    sunrise: int,
    shadow: int,
    dhuhr: int,
    asr: int,
    rule: HighLatitudeRule,
) -> bool {
    &&& p.fajr_angle == fajr
    &&& p.isha_angle == isha
    &&& p.isha_fixed_minutes == isha_fixed
    &&& p.sunrise_angle == sunrise
    &&& p.asr_shadow_factor == shadow
    &&& p.dhuhr_offset_minutes == dhuhr
    &&& p.asr_offset_minutes == asr
    &&& p.high_latitude_rule == rule
}

/// Law: every built-in method yields its published parameters, wherever the
/// observer stands:
/// - Diyanet: Fajr 18°, Isha 17°, horizon -1.9°, Dhuhr +5, Asr +4, no
///   high-latitude adjustment.
/// - MWL: Fajr 18°, Isha 17°. ISNA: Fajr 15°, Isha 15°. Egyptian: Fajr 19.5°,
///   Isha 17.5°. Karachi and Moonsighting Committee: Fajr 18°, Isha 18°. All
///   with the standard horizon and angle-based high-latitude times.
/// - Umm al-Qura: Fajr 18.5°, Isha 90 minutes after Maghrib, no high-latitude
///   adjustment.
/// - JAKIM: Fajr 17.5°, Isha 18°, Dhuhr +3, Asr +2, Maghrib and Isha +2.
/// - Kemenag: Fajr 20°, Isha 18°, Dhuhr +3, Asr +2, Fajr +2, Maghrib +3, Isha +2.
/// All use the standard Asr shadow (1), and only JAKIM and Kemenag fine-tune
/// single prayers.
pub proof fn lemma_published_parameters(c: Coordinates)
    ensures
        carries(DiyanetAdapter.spec_resolve(c), 18000, Some(17000i32), None, -1900, 1000, 5, 4,
            HighLatitudeRule::Unadjusted),
        carries(MwlAdapter.spec_resolve(c), 18000, Some(17000i32), None, -833, 1000, 0, 0,
            HighLatitudeRule::AngleBased),
        carries(IsnaAdapter.spec_resolve(c), 15000, Some(15000i32), None, -833, 1000, 0, 0,
            HighLatitudeRule::AngleBased),
        carries(EgyptianAdapter.spec_resolve(c), 19500, Some(17500i32), None, -833, 1000, 0, 0,
            HighLatitudeRule::AngleBased),
        carries(KarachiAdapter.spec_resolve(c), 18000, Some(18000i32), None, -833, 1000, 0, 0,
            HighLatitudeRule::AngleBased),
        carries(MoonsightingCommitteeAdapter.spec_resolve(c), 18000, Some(18000i32), None, -833,
            1000, 0, 0, HighLatitudeRule::AngleBased),
        carries(UmmAlQuraAdapter.spec_resolve(c), 18500, None, Some(90i32), -833, 1000, 0, 0,
            HighLatitudeRule::Unadjusted),
        carries(JakimAdapter.spec_resolve(c), 17500, Some(18000i32), None, -833, 1000, 3, 2,
            HighLatitudeRule::AngleBased),
        carries(KemenagAdapter.spec_resolve(c), 20000, Some(18000i32), None, -833, 1000, 3, 2,
            HighLatitudeRule::AngleBased),
        forall|q: Prayer|
            {
                &&& #[trigger] DiyanetAdapter.spec_resolve(c).manual_offset(q) == 0
                &&& MwlAdapter.spec_resolve(c).manual_offset(q) == 0
                &&& IsnaAdapter.spec_resolve(c).manual_offset(q) == 0
                &&& EgyptianAdapter.spec_resolve(c).manual_offset(q) == 0
                &&& KarachiAdapter.spec_resolve(c).manual_offset(q) == 0
                &&& MoonsightingCommitteeAdapter.spec_resolve(c).manual_offset(q) == 0
                &&& UmmAlQuraAdapter.spec_resolve(c).manual_offset(q) == 0
                &&& JakimAdapter.spec_resolve(c).manual_offset(q) == if q == Prayer::Maghrib || q
                    == Prayer::Isha {
                    2int
                } else {
                    0int
                }
                &&& KemenagAdapter.spec_resolve(c).manual_offset(q) == if q == Prayer::Fajr || q
                    == Prayer::Isha {
                    2int
                } else if q == Prayer::Maghrib {
                    3int
                } else {
                    0int
                }
            },
{
    PrayerMap::<i32>::lemma_empty();
    PrayerMap::<i32>::spec_empty().lemma_with(Prayer::Maghrib, 2);
    PrayerMap::<i32>::spec_empty().with(Prayer::Maghrib, 2).lemma_with(Prayer::Isha, 2);
    PrayerMap::<i32>::spec_empty().lemma_with(Prayer::Fajr, 2);
    PrayerMap::<i32>::spec_empty().with(Prayer::Fajr, 2).lemma_with(Prayer::Maghrib, 3);
    PrayerMap::<i32>::spec_empty().with(Prayer::Fajr, 2).with(Prayer::Maghrib, 3).lemma_with(
        Prayer::Isha,
        2,
    );
}

/// Law: the country table. TR gives Diyanet; US and CA give ISNA; SA gives
/// Umm al-Qura; EG gives the Egyptian authority; PK, IN, BD and AF give
/// Karachi; MY gives JAKIM; ID gives Kemenag; every other code gives MWL.
/// With `lemma_country_lookup_ignores_case`, the same holds of these codes in
/// any ASCII case.
pub proof fn lemma_country_table(other: Seq<char>)
    ensures
        spec_country_method_id("TR"@) == "diyanet"@,
        spec_country_method_id("US"@) == "isna"@,
        spec_country_method_id("CA"@) == "isna"@,
        spec_country_method_id("SA"@) == "ummalqura"@,
        spec_country_method_id("EG"@) == "egyptian"@,
        spec_country_method_id("PK"@) == "karachi"@,
        spec_country_method_id("IN"@) == "karachi"@,
        spec_country_method_id("BD"@) == "karachi"@,
        spec_country_method_id("AF"@) == "karachi"@,
        spec_country_method_id("MY"@) == "jakim"@,
        spec_country_method_id("ID"@) == "kemenag"@,
        !(other == "TR"@ || other == "US"@ || other == "CA"@ || other == "SA"@ || other == "EG"@
            || other == "PK"@ || other == "IN"@ || other == "BD"@ || other == "AF"@ || other
            == "MY"@ || other == "ID"@) ==> spec_country_method_id(other) == "mwl"@,
{
    reveal_strlit("TR");
    reveal_strlit("US");
    reveal_strlit("CA");
    reveal_strlit("SA");
    reveal_strlit("EG");
    reveal_strlit("PK");
    reveal_strlit("IN");
    reveal_strlit("BD");
    reveal_strlit("AF");
    reveal_strlit("MY");
    reveal_strlit("ID");
    assert("TR"@[0] == 'T' && "TR"@[1] == 'R');
    assert("US"@[0] == 'U' && "US"@[1] == 'S');
    assert("CA"@[0] == 'C' && "CA"@[1] == 'A');
    assert("SA"@[0] == 'S' && "SA"@[1] == 'A');
    assert("EG"@[0] == 'E' && "EG"@[1] == 'G');
    assert("PK"@[0] == 'P' && "PK"@[1] == 'K');
    assert("IN"@[0] == 'I' && "IN"@[1] == 'N');
    assert("BD"@[0] == 'B' && "BD"@[1] == 'D');
    assert("AF"@[0] == 'A' && "AF"@[1] == 'F');
    assert("MY"@[0] == 'M' && "MY"@[1] == 'Y');
    assert("ID"@[0] == 'I' && "ID"@[1] == 'D');
}

pub struct MethodRegistry;

impl MethodRegistry {
    /// All selectable built-in methods, in display order. `ManualAdapter` is
    /// excluded because it requires user-supplied parameters.
    pub fn built_in() -> (v: Vec<BaseMethod>)
        ensures
            v@ == spec_built_in(),
    {
        let mut v: Vec<BaseMethod> = Vec::new();
        v.push(BaseMethod::Diyanet(DiyanetAdapter));
        v.push(BaseMethod::Mwl(MwlAdapter));
        v.push(BaseMethod::Isna(IsnaAdapter));
        v.push(BaseMethod::UmmAlQura(UmmAlQuraAdapter));
        v.push(BaseMethod::Egyptian(EgyptianAdapter));
        v.push(BaseMethod::Karachi(KarachiAdapter));
        v.push(BaseMethod::Jakim(JakimAdapter));
        v.push(BaseMethod::Kemenag(KemenagAdapter));
        v.push(BaseMethod::Moonsighting(MoonsightingCommitteeAdapter));
        assert(v@ =~= spec_built_in());
        v
    }

    /// Look up a base method by its stable id (without the `.hanafi` suffix):
    /// the first built-in method, in display order, with that id.
    pub fn adapter(for_id: &str) -> (r: Option<BaseMethod>)
        ensures
            r == first_with_id(spec_built_in(), for_id@),
    {
        let all = Self::built_in();
        let target = for_id.to_owned();
        let mut i: usize = 0;
        assert(all@.skip(0) =~= all@);
        while i < all.len()
            invariant
                i <= all.len(),
                all@ == spec_built_in(),
                target@ == for_id@,
                first_with_id(all@, for_id@) == first_with_id(all@.skip(i as int), for_id@),
            decreases all.len() - i,
        {
            let candidate = all[i];
            assert(all@.skip(i as int)[0] == candidate);
            if candidate.id() == target {
                return Some(candidate);
            }
            assert(all@.skip(i as int).drop_first() =~= all@.skip(i + 1));
            i = i + 1;
        }
        None
    }

    /// Resolve a persisted selection into a ready-to-use adapter.
    ///
    /// - `method_id`: a built-in id, or `"manual"`.
    /// - `hanafi_asr`: wraps the result in `HanafiAsrModifier` when `true`.
    /// - `manual_parameters`: required when `method_id == "manual"`.
    ///
    /// Returns `None` if the id is unknown or the manual parameters are missing.
    pub fn resolve(
        method_id: &str,
        hanafi_asr: bool,
        manual_parameters: Option<CalculationParameters>,
    ) -> (r: Option<SelectedMethod>)
        ensures
            r is Some <==> spec_base_for(method_id@, manual_parameters) is Some,
            r matches Some(m) ==> {
                let base = spec_base_for(method_id@, manual_parameters)->0;
                if hanafi_asr {
                    m matches SelectedMethod::Hanafi(h) && h.spec_base() == base
                } else {
                    m == SelectedMethod::Plain(base)
                }
            },
    {
        let id = method_id.to_owned();
        let base = if string_is(&id, "manual") {
            match manual_parameters {
                Some(p) => BaseMethod::Manual(ManualAdapter::new(p)),
                None => {
                    return None;
                },
            }
        } else {
            match Self::adapter(method_id) {
                Some(a) => a,
                None => {
                    return None;
                },
            }
        };
        if hanafi_asr {
            Some(SelectedMethod::Hanafi(HanafiAsrModifier::new(Box::new(base))))
        } else {
            Some(SelectedMethod::Plain(base))
        }
    }

    /// Engine parameters for a persisted selection at `coordinates`: the
    /// selected method's (Hanafi Asr applied when asked), or the Muslim World
    /// League's when the id is unknown. Manual parameters are not consulted, so
    /// "manual" also falls back.
    pub fn parameters_for(method_id: &str, hanafi_asr: bool, coordinates: Coordinates) -> (p:
        CalculationParameters)
        ensures
            p == match spec_base_for(method_id@, None) {
                Some(base) => if hanafi_asr {
                    CalculationParameters {
                        asr_shadow_factor: crate::params::HANAFI_ASR_SHADOW_FACTOR,
                        ..base.spec_resolve(coordinates)
                    }
                } else {
                    base.spec_resolve(coordinates)
                },
                None => MwlAdapter.spec_resolve(coordinates),
            },
    {
        match Self::resolve(method_id, hanafi_asr, None) {
            Some(a) => a.resolve(coordinates),
            None => MwlAdapter.resolve(coordinates),
        }
    }

    /// Display name of a persisted selection ("Muslim World League" when the
    /// id is unknown). Manual parameters are not consulted.
    pub fn display_name_for(method_id: &str, hanafi_asr: bool) -> (r: String)
        ensures
            r@ == match spec_base_for(method_id@, None) {
                Some(base) => if hanafi_asr {
                    base.spec_display_name() + " (Hanafi)"@
                } else {
                    base.spec_display_name()
                },
                None => "Muslim World League"@,
            },
    {
        match Self::resolve(method_id, hanafi_asr, None) {
            Some(a) => a.display_name(),
            None => String::from_str("Muslim World League"),
        }
    }

    /// Default method id for a country code; `"mwl"` when unmapped or `None`.
    /// ISO 3166-1 alpha-2; case-insensitive (the code is upper-cased first).
    pub fn method_id_for_country(code: Option<&str>) -> (r: String)
        ensures
            r@ == match code {
                None => "mwl"@,
                Some(c) => spec_country_method_id(spec_to_uppercase(c@)),
            },
            code matches Some(c) ==> (vstd::string::is_ascii(c) ==> r@ == spec_country_method_id(
                ascii_uppercase(c@),
            )),
    {
        let code = match code {
            Some(c) => c,
            None => {
                return String::from_str("mwl");
            },
        };
        let upper = str_to_uppercase(code);
        let id = if string_is(&upper, "TR") {
            "diyanet"
        } else if string_is(&upper, "US") || string_is(&upper, "CA") {
            "isna"
        } else if string_is(&upper, "SA") {
            "ummalqura"
        } else if string_is(&upper, "EG") {
            "egyptian"
        } else if string_is(&upper, "PK") || string_is(&upper, "IN") || string_is(&upper, "BD")
            || string_is(&upper, "AF") {
            "karachi"
        } else if string_is(&upper, "MY") {
            "jakim"
        } else if string_is(&upper, "ID") {
            "kemenag"
        } else {
            "mwl"
        };
        String::from_str(id)
    }
}

} // verus!
