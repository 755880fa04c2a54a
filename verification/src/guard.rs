//! The consistency guard: decides whether a deployment's data changed
//! underneath a running query in a way that could have affected its result.

use vstd::prelude::*;
use crate::deployment::DeploymentState;
use crate::errors::QueryExecutionError;

verus! {

/// What the guard concluded from the two captured deployment states.
#[derive(Clone, Copy, Debug, PartialEq, Eq, Structural)]
pub enum GuardOutcome {
    /// No reorganization could have invalidated what the query observed.
    Pass,
    /// The deployment may have reverted data within the query's observation
    /// window; the result must not be returned.
    Reverted,
    /// The post-execution state shows fewer reorganizations than the
    /// pre-execution one. The store broke its monotonicity guarantee; this
    /// is a collaborator contract breach, not a recoverable query error.
    ReorgCountRegression,
}

/// What the guard concludes for a pre-execution state `pre`, a
/// post-execution state `post`, and the highest block number `observed`
/// that any partition of the query looked at.
///
/// When checking is disabled the guard always passes. A regression of the
/// reorganization count is fatal. With no reorganization the guard passes
/// regardless of where the query looked. Otherwise every reorganization can
/// have reverted at most `post.max_reorg_depth` blocks, so the query is safe
/// exactly when it stayed that conservative bound behind the pre-execution
/// head.
pub open spec fn guard_spec(
    allow_change: bool,
    pre: DeploymentState,
    post: DeploymentState,
    observed: u64,
) -> GuardOutcome {
    if allow_change {
        GuardOutcome::Pass
    } else if post.reorg_count < pre.reorg_count {
        GuardOutcome::ReorgCountRegression
    } else if post.reorg_count == pre.reorg_count {
        GuardOutcome::Pass
    } else if observed + post.max_reorg_depth * (post.reorg_count - pre.reorg_count)
        > pre.latest_block_number {
        GuardOutcome::Reverted
    } else {
        GuardOutcome::Pass
    }
}

/// Runs the consistency guard on the two captured states. Total: every
/// input, including a reorg-count regression, gets a verdict rather than a
/// panic, so a caller can fail loudly on `ReorgCountRegression` itself.
pub fn guard_check(
    allow_change: bool,
    pre: DeploymentState,
    post: DeploymentState,
    observed: u64,
) -> (v: GuardOutcome)
    ensures
        v == guard_spec(allow_change, pre, post, observed),
{
    if allow_change {
        return GuardOutcome::Pass;
    }
    if post.reorg_count < pre.reorg_count {
        return GuardOutcome::ReorgCountRegression;
    }
    if post.reorg_count == pre.reorg_count {
        return GuardOutcome::Pass;
    }
    let delta: u64 = post.reorg_count - pre.reorg_count;
    proof {
        assert((post.max_reorg_depth as int) * (delta as int)
            <= (u64::MAX as int) * (u64::MAX as int)) by (nonlinear_arith)
            requires
                post.max_reorg_depth <= u64::MAX,
                delta <= u64::MAX,
        ;
    }
    let n_blocks: u128 = (post.max_reorg_depth as u128) * (delta as u128);
    if (observed as u128) + n_blocks > (pre.latest_block_number as u128) {
        GuardOutcome::Reverted
    } else {
        GuardOutcome::Pass
    }
}

/// With no reorganization between the two captures the guard always passes,
/// however far ahead the query looked.
pub proof fn lemma_no_reorg_passes(
    allow_change: bool,
    pre: DeploymentState,
    post: DeploymentState,
    observed: u64,
)
    requires
        post.reorg_count == pre.reorg_count,
    ensures
        guard_spec(allow_change, pre, post, observed) == GuardOutcome::Pass,
{
}

/// With checking enabled and at least one reorganization, the guard passes
/// exactly when the reverted window stayed behind what the query observed:
/// `observed + post.max_reorg_depth * (post.reorg_count - pre.reorg_count)`
/// must not exceed `pre.latest_block_number`. Every other verdict is
/// `Reverted`.
pub proof fn lemma_guard_bound(
    pre: DeploymentState,
    post: DeploymentState,
    observed: u64,
)
    requires
        post.reorg_count > pre.reorg_count,
    ensures
        guard_spec(false, pre, post, observed) == GuardOutcome::Pass
            <==> observed + post.max_reorg_depth * (post.reorg_count - pre.reorg_count)
                <= pre.latest_block_number,
        guard_spec(false, pre, post, observed) == GuardOutcome::Pass
            || guard_spec(false, pre, post, observed) == GuardOutcome::Reverted,
{
}

/// The passing direction of the window bound holds for every monotone pair
/// of states, with or without a reorganization: a query that stayed the
/// conservative window behind the pre-execution head is never flagged.
pub proof fn lemma_guard_formula_passes(
    pre: DeploymentState,
    post: DeploymentState,
    observed: u64,
)
    requires
        post.reorg_count >= pre.reorg_count,
        observed + post.max_reorg_depth * (post.reorg_count - pre.reorg_count)
            <= pre.latest_block_number,
    ensures
        guard_spec(false, pre, post, observed) == GuardOutcome::Pass,
{
}

/// With checking enabled, a post-execution state whose reorganization count
/// went backwards is always rejected as fatal, whatever else the states
/// hold.
pub proof fn lemma_regression_fatal(
    pre: DeploymentState,
    post: DeploymentState,
    observed: u64,
)
    requires
        post.reorg_count < pre.reorg_count,
    ensures
        guard_spec(false, pre, post, observed) == GuardOutcome::ReorgCountRegression,
{
}

} // verus!
