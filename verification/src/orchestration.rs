//! The query orchestration state machine. One value of [`Orchestration`]
//! is one call in flight: the caller acquires a single store handle,
//! captures the deployment's state, starts the machine, executes the
//! partitions it hands out strictly in order against that one handle,
//! records each outcome, and finishes with the deployment's state reached.
//! The machine holds every decision — validation, admission, merging, the
//! consistency guard — while the caller does the store and engine work.

use vstd::prelude::*;
use crate::admission::{decision_error, LoadManager};
use crate::config::{resolved_depth, resolved_first, resolved_skip, RunnerConfig};
use crate::deployment::{DeploymentState, QueryTarget};
use crate::errors::QueryExecutionError;
use crate::guard::{guard_check, guard_spec, GuardOutcome};
use crate::metrics::{counts_after, max_after, ResultSizeMetrics};
use crate::query::{expected_partitions, prepare, validation_error, ErrorPolicy, Partition, Query};
use crate::results::{PartitionResult, QueryResults};

verus! {

/// What one partition's execution came to: the block number its constraint
/// resolved to against the pinned store handle, and what the engine
/// returned for it.
#[derive(Debug)]
pub struct PartitionOutcome {
    /// The concrete block the partition observed.
    pub block: u64,
    /// The engine's result for the partition.
    pub result: PartitionResult,
}

/// The data handles accumulated after the first `n` outcomes: one per
/// partition that produced data, in partition order.
pub open spec fn merged_data(outcomes: Seq<PartitionOutcome>, n: int) -> Seq<u64>
    decreases n,
{
    if n <= 0 {
        Seq::empty()
    } else {
        match outcomes[n - 1].result.data {
            Some(d) => merged_data(outcomes, n - 1).push(d),
            None => merged_data(outcomes, n - 1),
        }
    }
}

/// The errors accumulated after the first `n` outcomes, in partition order.
pub open spec fn merged_errors(outcomes: Seq<PartitionOutcome>, n: int) -> Seq<QueryExecutionError>
    decreases n,
{
    if n <= 0 {
        Seq::empty()
    } else {
        merged_errors(outcomes, n - 1) + outcomes[n - 1].result.errors@
    }
}

/// The highest block any of the first `n` outcomes observed; 0 before any.
pub open spec fn max_observed(outcomes: Seq<PartitionOutcome>, n: int) -> u64
    decreases n,
{
    if n <= 0 {
        0
    } else if outcomes[n - 1].block > max_observed(outcomes, n - 1) {
        outcomes[n - 1].block
    } else {
        max_observed(outcomes, n - 1)
    }
}

/// Whether any of the first `n` partitions erred under the escalating
/// error policy, which turns the whole call into a failure.
pub open spec fn any_denied(
    partitions: Seq<Partition>,
    outcomes: Seq<PartitionOutcome>,
    n: int,
) -> bool
    decreases n,
{
    if n <= 0 {
        false
    } else {
        any_denied(partitions, outcomes, n - 1)
            || (partitions[n - 1].error_policy is Deny
                && outcomes[n - 1].result.errors@.len() > 0)
    }
}

/// The histogram counts after recording the first `n` outcomes: each
/// partition that produced data adds its weight.
pub open spec fn counts_after_outcomes(
    counts: Seq<u64>,
    outcomes: Seq<PartitionOutcome>,
    n: int,
) -> Seq<u64>
    decreases n,
{
    if n <= 0 {
        counts
    } else {
        let prev = counts_after_outcomes(counts, outcomes, n - 1);
        match outcomes[n - 1].result.data {
            Some(_) => counts_after(prev, outcomes[n - 1].result.weight as u64),
            None => prev,
        }
    }
}

/// The recorded maximum after the first `n` outcomes.
pub open spec fn max_after_outcomes(m: u64, outcomes: Seq<PartitionOutcome>, n: int) -> u64
    decreases n,
{
    if n <= 0 {
        m
    } else {
        let prev = max_after_outcomes(m, outcomes, n - 1);
        match outcomes[n - 1].result.data {
            Some(_) => max_after(prev, outcomes[n - 1].result.weight as u64),
            None => prev,
        }
    }
}

/// The error that stops a call before any partition work, if there is one:
/// the query's validation error, else the admission controller's refusal.
pub open spec fn start_error(
    cfg: RunnerConfig,
    lm: LoadManager,
    q: Query,
    max_complexity: Option<u64>,
    max_depth: Option<u32>,
) -> Option<QueryExecutionError> {
    match validation_error(q, max_complexity, resolved_depth(cfg, max_depth)) {
        Some(e) => Some(e),
        None => decision_error(lm.decision),
    }
}

/// One orchestration call in flight, between admission and the guard.
#[derive(Debug)]
pub struct Orchestration {
    /// The partitions of the call, in order; never empty.
    pub partitions: Vec<Partition>,
    /// How many partitions have been recorded; the next one to run.
    pub next: usize,
    /// The accumulated payload of the recorded partitions.
    pub merged: QueryResults,
    /// The highest block any recorded partition observed.
    pub max_block: u64,
    /// Whether a recorded partition erred under the escalating policy.
    pub failed: bool,
    /// The deployment the call addresses; the caller resolved it to the one
    /// pinned store handle every partition runs against.
    pub target: QueryTarget,
    /// The deployment state captured before any partition ran.
    pub pre_state: DeploymentState,
    /// Whether the consistency guard is disabled.
    pub allow_change: bool,
    /// The query's shape fingerprint, for observability at the boundary.
    pub shape_hash: u64,
    /// The pagination fetch cap the engine must apply per partition.
    pub max_first: u32,
    /// The pagination skip cap the engine must apply per partition.
    pub max_skip: u32,
    /// The engine's deadline per partition, in milliseconds, if any.
    pub timeout_ms: Option<u64>,
}

impl Orchestration {
    /// The machine never runs past its last partition, and always has at
    /// least one.
    pub open spec fn wf(&self) -> bool {
        &&& self.next <= self.partitions@.len()
        &&& self.partitions@.len() >= 1
    }

    /// Opens one orchestration call: validates the query against the
    /// requested or default bounds, asks the admission controller, and only
    /// then sets up the partition loop. A refused call carries exactly the
    /// refusing error and no data, and no partition ever runs for it.
    pub fn start(
        config: &RunnerConfig,
        load_manager: &LoadManager,
        query: Query,
        target: QueryTarget,
        pre_state: DeploymentState,
        wait_ms: u64,
        max_complexity: Option<u64>,
        max_depth: Option<u32>,
        max_first: Option<u32>,
        max_skip: Option<u32>,
    ) -> (r: Result<Orchestration, QueryResults>)
        ensures
            start_error(*config, *load_manager, query, max_complexity, max_depth)
                matches Some(e)
                ==> (r matches Err(p) && p.data@.len() == 0 && p.errors@ == seq![e]),
            start_error(*config, *load_manager, query, max_complexity, max_depth) is None
                ==> (r matches Ok(o)
                    && o.wf()
                    && o.partitions@ == expected_partitions(query)
                    && o.next == 0
                    && o.merged.data@.len() == 0
                    && o.merged.errors@.len() == 0
                    && o.max_block == 0
                    && !o.failed
                    && o.target == target
                    && o.pre_state == pre_state
                    && o.allow_change == config.allow_deployment_change
                    && o.shape_hash == query.shape_hash
                    && o.max_first == resolved_first(*config, max_first)
                    && o.max_skip == resolved_skip(*config, max_skip)
                    && o.timeout_ms == config.query_timeout_ms),
    {
        let shape_hash: u64 = query.shape_hash;
        let depth_bound: u32 = match max_depth {
            Some(d) => d,
            None => config.max_depth,
        };
        let prepared = match prepare(query, max_complexity, depth_bound) {
            Ok(p) => p,
            Err(e) => {
                return Err(QueryResults::from_error(e));
            },
        };
        let decision = load_manager.decide(wait_ms, shape_hash);
        if let Err(e) = decision.to_result() {
            return Err(QueryResults::from_error(e));
        }
        Ok(Orchestration {
            partitions: prepared.partitions,
            next: 0,
            merged: QueryResults::empty(),
            max_block: 0,
            failed: false,
            target,
            pre_state,
            allow_change: config.allow_deployment_change,
            shape_hash,
            max_first: match max_first {
                Some(f) => f,
                None => config.max_first,
            },
            max_skip: match max_skip {
                Some(s) => s,
                None => config.max_skip,
            },
            timeout_ms: config.query_timeout_ms,
        })
    }

    /// The partition the caller must execute next, or nothing when every
    /// partition has been recorded.
    pub fn next_partition(&self) -> (r: Option<Partition>)
        ensures
            self.next < self.partitions@.len()
                ==> r == Some(self.partitions@[self.next as int]),
            self.next >= self.partitions@.len() ==> r is None,
    {
        if self.next < self.partitions.len() {
            Some(self.partitions[self.next])
        } else {
            None
        }
    }

    /// Records the outcome of the partition due next: the outcome's data
    /// and errors join the merged payload with union semantics, the highest
    /// observed block is tracked, an error under the escalating policy
    /// marks the call failed, and a partition that produced data feeds the
    /// result-size recorder with its weight. Nothing else changes.
    pub fn record_partition(
        &mut self,
        metrics: &mut ResultSizeMetrics,
        outcome: PartitionOutcome,
    )
        requires
            old(self).wf(),
            old(self).next < old(self).partitions@.len(),
            old(metrics).wf(),
        ensures
            final(self).wf(),
            final(metrics).wf(),
            final(self).next == old(self).next + 1,
            final(self).partitions@ == old(self).partitions@,
            final(self).merged.data@ == match outcome.result.data {
                Some(d) => old(self).merged.data@.push(d),
                None => old(self).merged.data@,
            },
            final(self).merged.errors@ == old(self).merged.errors@ + outcome.result.errors@,
            final(self).max_block == if outcome.block > old(self).max_block {
                outcome.block
            } else {
                old(self).max_block
            },
            final(self).failed == (old(self).failed
                || (old(self).partitions@[old(self).next as int].error_policy is Deny
                    && outcome.result.errors@.len() > 0)),
            final(metrics).counts@ == match outcome.result.data {
                Some(_) => counts_after(old(metrics).counts@, outcome.result.weight as u64),
                None => old(metrics).counts@,
            },
            final(metrics).max == match outcome.result.data {
                Some(_) => max_after(old(metrics).max, outcome.result.weight as u64),
                None => old(metrics).max,
            },
            final(self).target == old(self).target,
            final(self).pre_state == old(self).pre_state,
            final(self).allow_change == old(self).allow_change,
            final(self).shape_hash == old(self).shape_hash,
            final(self).max_first == old(self).max_first,
            final(self).max_skip == old(self).max_skip,
            final(self).timeout_ms == old(self).timeout_ms,
    {
        // the exec length bounds `next` by `usize::MAX`, so the increment
        // cannot overflow
        let _partition_count: usize = self.partitions.len();
        let new_next: usize = self.next + 1;
        let policy = self.partitions[self.next].error_policy;
        if outcome.result.data.is_some() {
            metrics.observe(outcome.result.weight);
        }
        if outcome.result.errors.len() > 0 {
            if let ErrorPolicy::Deny = policy {
                self.failed = true;
            }
        }
        if outcome.block > self.max_block {
            self.max_block = outcome.block;
        }
        self.merged.append(outcome.result);
        self.next = new_next;
    }

    /// Closes the call against the deployment state actually reached: runs
    /// the consistency guard over the pre-execution state and the highest
    /// observed block. A reverted deployment turns the whole call into a
    /// revert error, superseding whatever the partitions computed; an
    /// escalated partition error turns it into a failure carrying the
    /// merged payload; otherwise the merged payload is the result.
    ///
    /// The store guarantees the reorganization count never decreases within
    /// one call; a caller that sees it decrease must treat that as a fatal
    /// collaborator breach (see [`guard_check`]), not call `finish`.
    pub fn finish(self, post_state: DeploymentState) -> (r: Result<QueryResults, QueryResults>)
        requires
            self.wf(),
            self.next == self.partitions@.len(),
            post_state.reorg_count >= self.pre_state.reorg_count,
        ensures
            guard_spec(self.allow_change, self.pre_state, post_state, self.max_block)
                == GuardOutcome::Reverted
                ==> (r matches Err(p) && p.data@.len() == 0
                    && p.errors@ == seq![QueryExecutionError::DeploymentReverted]),
            guard_spec(self.allow_change, self.pre_state, post_state, self.max_block)
                == GuardOutcome::Pass && self.failed
                ==> r == Result::<QueryResults, QueryResults>::Err(self.merged),
            guard_spec(self.allow_change, self.pre_state, post_state, self.max_block)
                == GuardOutcome::Pass && !self.failed
                ==> r == Result::<QueryResults, QueryResults>::Ok(self.merged),
    {
        match guard_check(self.allow_change, self.pre_state, post_state, self.max_block) {
            GuardOutcome::Pass => {
                if self.failed {
                    Err(self.merged)
                } else {
                    Ok(self.merged)
                }
            },
            GuardOutcome::Reverted => {
                Err(QueryResults::from_error(QueryExecutionError::DeploymentReverted))
            },
            GuardOutcome::ReorgCountRegression => {
                proof {
                    assert(false);
                }
                Err(QueryResults::from_error(QueryExecutionError::DeploymentReverted))
            },
        }
    }
}

} // verus!
