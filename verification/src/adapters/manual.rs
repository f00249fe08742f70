use vstd::prelude::*;

use crate::adapters::CalculationMethodAdapter;
use crate::coordinates::Coordinates;
use crate::params::CalculationParameters;

verus! {

/// Fully user-supplied parameters. Backs the "Manual" method in settings and
/// doubles as a debugging tool. Carries its parameters verbatim.
#[derive(Debug, Clone, Copy)]
pub struct ManualAdapter {
    pub parameters: CalculationParameters,
}

impl ManualAdapter {
    pub fn new(parameters: CalculationParameters) -> (m: Self)
        ensures
            m.parameters == parameters,
    {
        ManualAdapter { parameters }
    }
}

impl CalculationMethodAdapter for ManualAdapter {
    open spec fn spec_id(&self) -> Seq<char> {
        "manual"@
    }

    open spec fn spec_display_name(&self) -> Seq<char> {
        "Manual"@
    }

    open spec fn spec_summary(&self) -> Seq<char> {
        "User-supplied angles, shadow factor, and offsets."@
    }

    open spec fn spec_resolve(&self, coordinates: Coordinates) -> CalculationParameters {
        self.parameters
    }

    fn id(&self) -> (r: String) {
        String::from_str("manual")
    }

    fn display_name(&self) -> (r: String) {
        String::from_str("Manual")
    }

    fn summary(&self) -> (r: String) {
        String::from_str("User-supplied angles, shadow factor, and offsets.")
    }

    fn resolve(&self, _coordinates: Coordinates) -> (p: CalculationParameters) {
        self.parameters
    }
}

} // verus!
