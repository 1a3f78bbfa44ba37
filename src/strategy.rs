//! Settings of the batch search strategies.
use vstd::prelude::*;

verus! {

/// Multi-start Nelder-Mead settings.
#[derive(Clone, Copy, Debug, PartialEq, Eq, Structural)]
pub struct MultiStartConfig {
    /// Number of parallel starts.
    pub k: usize,
    /// Iterations without improvement before switching starts.
    pub stall_threshold: usize,
    /// Triage budget per start.
    pub triage_budget: usize,
    /// Evaluations that justify a dedicated start.
    pub min_evals_per_start: usize,
}

impl Default for MultiStartConfig {
    fn default() -> (r: Self)
        ensures
            r == (MultiStartConfig {
                k: 4,
                stall_threshold: 10,
                triage_budget: 20,
                min_evals_per_start: 80,
            }),
    {
        MultiStartConfig { k: 4, stall_threshold: 10, triage_budget: 20, min_evals_per_start: 80 }
    }
}

} // verus!
