//! Iteration-mode classification of a component instance.

use vstd::prelude::*;

verus! {

/// When and how often the host calls an instance during one timestep.
///
/// The static-mode instances are called first, then the dynamic-mode ones,
/// then the after-convergence ones, then integrators and printers, and
/// finally the instances that run after convergence and after the printers.
#[derive(Debug, Clone, Copy, PartialEq, Eq, Structural)]
pub enum IterationMode {
    /// Outputs depend only on the input values, not explicitly on time.
    StaticMode,
    /// Outputs depend on the passage of time; the instance is called at
    /// least once every timestep even if no input changes.
    DynamicMode,
    /// Called after all other components have converged, before the
    /// integrators and printers.
    AfterConvergence,
    /// Integration mode.
    IntegrationMode,
    /// Printer mode.
    PrinterMode,
    /// Called after all other components have converged and after the
    /// integrators and printers.
    AfterConvergenceAndPrinters,
}

impl IterationMode {
    /// The numeric code under which the host knows this mode.
    pub open spec fn spec_host_code(self) -> i32 {
        match self {
            IterationMode::StaticMode => 0,
            IterationMode::DynamicMode => 1,
            IterationMode::AfterConvergenceAndPrinters => 2,
            IterationMode::AfterConvergence => 3,
            IterationMode::IntegrationMode => 4,
            IterationMode::PrinterMode => 5,
        }
    }

    /// Returns the numeric code that is advertised to the host.
    pub fn host_code(self) -> (code: i32)
        ensures
            code == self.spec_host_code(),
    {
        match self {
            IterationMode::StaticMode => 0,
            IterationMode::DynamicMode => 1,
            IterationMode::AfterConvergenceAndPrinters => 2,
            IterationMode::AfterConvergence => 3,
            IterationMode::IntegrationMode => 4,
            IterationMode::PrinterMode => 5,
        }
    }
}

impl Default for IterationMode {
    /// A freshly created instance runs in dynamic mode.
    fn default() -> (mode: Self)
        ensures
            mode == IterationMode::DynamicMode,
    {
        IterationMode::DynamicMode
    }
}

} // verus!
