//! The indexing state of one deployment, and the identity of the deployment
//! a query addresses.

use vstd::prelude::*;

verus! {

/// Indexing progress and revert history of one deployment at a point in
/// time. It is captured twice per query: once before any partition runs and
/// once after the last one, and the two captures are what the consistency
/// guard compares. The store guarantees that `reorg_count` never decreases
/// between the two captures of one call.
#[derive(Clone, Copy, Debug, PartialEq, Eq, Structural)]
pub struct DeploymentState {
    /// How many chain reorganizations the deployment has processed so far.
    pub reorg_count: u64,
    /// Upper bound on how many blocks a single reorganization can revert.
    pub max_reorg_depth: u64,
    /// The highest block the deployment had indexed when the state was
    /// captured.
    pub latest_block_number: u64,
}

/// Identifies which deployment a query or subscription addresses. The
/// caller resolves it to a store handle once per orchestration call; it
/// never changes during the call.
#[derive(Clone, Copy, Debug, PartialEq, Eq, Structural)]
pub struct QueryTarget {
    /// Stable identifier of the deployment.
    pub deployment: u64,
}

} // verus!
