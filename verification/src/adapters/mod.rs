//! Calculation-method adapters: turn a location into the numeric
//! parameters the engine consumes. Methods are pure value producers.

use vstd::prelude::*;

use crate::coordinates::Coordinates;
use crate::params::CalculationParameters;

pub mod diyanet;
pub mod egyptian;
pub mod hanafi;
pub mod isna;
pub mod jakim;
pub mod karachi;
pub mod kemenag;
pub mod manual;
pub mod moonsighting;
pub mod mwl;
pub mod registry;
pub mod umm_al_qura;

pub use diyanet::DiyanetAdapter;
pub use egyptian::EgyptianAdapter;
pub use hanafi::HanafiAsrModifier;
pub use isna::IsnaAdapter;
pub use jakim::JakimAdapter;
pub use karachi::KarachiAdapter;
pub use kemenag::KemenagAdapter;
pub use manual::ManualAdapter;
pub use moonsighting::MoonsightingCommitteeAdapter;
pub use mwl::MwlAdapter;
pub use registry::{BaseMethod, MethodRegistry, SelectedMethod};
pub use umm_al_qura::UmmAlQuraAdapter;

verus! {

/// A calculation method: turns a location into the numeric parameters
/// the engine consumes. Each method states its id, name, summary and
/// parameters as spec functions, and its executable methods return them.
pub trait CalculationMethodAdapter {
    /// Stable key used for persistence and the registry.
    spec fn spec_id(&self) -> Seq<char>;

    /// Human-readable name.
    spec fn spec_display_name(&self) -> Seq<char>;

    /// One-line description of the method's provenance / parameters.
    spec fn spec_summary(&self) -> Seq<char>;

    /// Engine parameters for the given location.
    spec fn spec_resolve(&self, coordinates: Coordinates) -> CalculationParameters;

    /// Stable key used for persistence and the registry. Never localized.
    fn id(&self) -> (r: String)
        ensures
            r@ == self.spec_id(),
    ;

    /// Human-readable name for the UI.
    fn display_name(&self) -> (r: String)
        ensures
            r@ == self.spec_display_name(),
    ;

    /// One-line description of the method's provenance / parameters.
    fn summary(&self) -> (r: String)
        ensures
            r@ == self.spec_summary(),
    ;

    /// Produce engine parameters for the given location.
    fn resolve(&self, coordinates: Coordinates) -> (p: CalculationParameters)
        ensures
            p == self.spec_resolve(coordinates),
    ;
}

} // verus!
