//! Online hyperparameter control with proved safety properties.
//!
//! The core is the adaptive engine: a versioned configuration cell
//! (`config_atomic`), a bounded audit queue (`audit`), a telemetry ring
//! (`telemetry`), the SPSA evaluation cycle (`spsa`), and the safety executor
//! with its SafeMode latch (`executor`, `control_safety`). Around it stand the
//! release and dashboard helpers: prime generation for probing, versions and
//! changelogs, commit lines, remote URLs and query strings.
use vstd::prelude::*;

pub mod audit;
pub mod commits;
pub mod config_atomic;
pub mod control_safety;
pub mod executor;
pub mod git_remote;
pub mod probe;
pub mod query;
pub mod registry;
pub mod release;
pub mod run_id;
pub mod ship_config;
pub mod spsa;
pub mod strategy;
pub mod telemetry;
pub mod text;

verus! {

/// Adds two counts.
pub fn add(left: usize, right: usize) -> (r: usize)
    requires
        left + right <= usize::MAX,
    ensures
        r == left + right,
{
    left + right
}

} // verus!
