use vstd::prelude::*;

use crate::adapters::CalculationMethodAdapter;
use crate::coordinates::Coordinates;
use crate::params::{CalculationParameters, HANAFI_ASR_SHADOW_FACTOR};

verus! {

/// Madhab is not a method: it is a modifier that overrides only the Asr shadow
/// factor on top of any method. Wrapping `MwlAdapter` in this yields
/// "MWL, Hanafi Asr".
pub struct HanafiAsrModifier<A> {
    base: Box<A>,
}

impl<A> HanafiAsrModifier<A> {
    /// The wrapped method.
    pub closed spec fn spec_base(&self) -> A {
        *self.base
    }

    pub fn new(base: Box<A>) -> (m: Self)
        ensures
            m.spec_base() == *base,
    {
        HanafiAsrModifier { base }
    }
}

impl<A: CalculationMethodAdapter> CalculationMethodAdapter for HanafiAsrModifier<A> {
    open spec fn spec_id(&self) -> Seq<char> {
        self.spec_base().spec_id() + ".hanafi"@
    }

    open spec fn spec_display_name(&self) -> Seq<char> {
        self.spec_base().spec_display_name() + " (Hanafi)"@
    }

    open spec fn spec_summary(&self) -> Seq<char> {
        self.spec_base().spec_summary() + " Hanafi Asr (shadow ×2)."@
    }

    open spec fn spec_resolve(&self, coordinates: Coordinates) -> CalculationParameters {
        CalculationParameters {
            asr_shadow_factor: HANAFI_ASR_SHADOW_FACTOR,
            ..self.spec_base().spec_resolve(coordinates)
        }
    }

    fn id(&self) -> (r: String) {
        let mut s = self.base.id();
        s.append(".hanafi");
        s
    }

    fn display_name(&self) -> (r: String) {
        let mut s = self.base.display_name();
        s.append(" (Hanafi)");
        s
    }

    fn summary(&self) -> (r: String) {
        let mut s = self.base.summary();
        s.append(" Hanafi Asr (shadow ×2).");
        s
    }

    fn resolve(&self, coordinates: Coordinates) -> (p: CalculationParameters) {
        let mut p = self.base.resolve(coordinates);
        p.asr_shadow_factor = HANAFI_ASR_SHADOW_FACTOR;
        p
    }
}

/// Law: the Hanafi modifier changes only the Asr shadow factor, which becomes 2;
/// every other parameter is the wrapped method's.
pub proof fn lemma_hanafi_only_changes_asr<A: CalculationMethodAdapter>(
    m: HanafiAsrModifier<A>,
    coordinates: Coordinates,
)
    ensures
        m.spec_resolve(coordinates).asr_shadow_factor == HANAFI_ASR_SHADOW_FACTOR,
        ({
            let base = m.spec_base().spec_resolve(coordinates);
            let p = m.spec_resolve(coordinates);
            &&& p.fajr_angle == base.fajr_angle
            &&& p.isha_angle == base.isha_angle
            &&& p.isha_fixed_minutes == base.isha_fixed_minutes
            &&& p.sunrise_angle == base.sunrise_angle
            &&& p.dhuhr_offset_minutes == base.dhuhr_offset_minutes
            &&& p.asr_offset_minutes == base.asr_offset_minutes
            &&& p.manual_offsets == base.manual_offsets
            &&& p.high_latitude_rule == base.high_latitude_rule
        }),
{
}

} // verus!
