//! The configuration surface the core consumes. Owned by the process that
//! builds the runner, read-only here.

use vstd::prelude::*;

verus! {

/// Process-wide defaults and switches.
#[derive(Clone, Copy, Debug)]
pub struct RunnerConfig {
    /// Disables the consistency guard entirely, for controlled test or
    /// operational scenarios.
    pub allow_deployment_change: bool,
    /// Default bound on a query's cost score; `None` means unlimited.
    pub max_complexity: Option<u64>,
    /// Default bound on a query's nesting depth.
    pub max_depth: u32,
    /// Default pagination cap on how many items one field may fetch.
    pub max_first: u32,
    /// Default pagination cap on how many items one field may skip.
    pub max_skip: u32,
    /// Deadline handed to the execution engine for each partition, in
    /// milliseconds; `None` means no deadline.
    pub query_timeout_ms: Option<u64>,
}

/// The depth bound a call runs under: the explicit one if given, else the
/// configured default.
pub open spec fn resolved_depth(cfg: RunnerConfig, max_depth: Option<u32>) -> u32 {
    match max_depth {
        Some(d) => d,
        None => cfg.max_depth,
    }
}

/// The pagination fetch cap a call runs under.
pub open spec fn resolved_first(cfg: RunnerConfig, max_first: Option<u32>) -> u32 {
    match max_first {
        Some(f) => f,
        None => cfg.max_first,
    }
}

/// The pagination skip cap a call runs under.
pub open spec fn resolved_skip(cfg: RunnerConfig, max_skip: Option<u32>) -> u32 {
    match max_skip {
        Some(s) => s,
        None => cfg.max_skip,
    }
}

} // verus!
