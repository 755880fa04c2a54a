//! The externally visible runner: query execution with default or explicit
//! resource limits, subscription setup, and the process-wide admission
//! controller and result-size metrics.
//!
//! The store and the execution engines are external collaborators. A caller
//! acquires one store handle per call, captures the deployment state before
//! and after, executes each partition, and hands everything in here as
//! plain values; every decision in between is verified.

use vstd::prelude::*;
use crate::admission::LoadManager;
use crate::config::{resolved_first, resolved_skip, RunnerConfig};
use crate::deployment::{DeploymentState, QueryTarget};
use crate::errors::{QueryExecutionError, SubscriptionError};
use crate::guard::{guard_check, guard_spec, GuardOutcome};
use crate::metrics::{ResultSizeMetrics, BUCKETS};
use crate::orchestration::{
    any_denied, counts_after_outcomes, max_after_outcomes, max_observed, merged_data,
    merged_errors, start_error, Orchestration, PartitionOutcome,
};
use crate::query::{expected_partitions, Query};
use crate::results::QueryResults;

verus! {

/// A subscription request: the query to keep live.
#[derive(Debug)]
pub struct Subscription {
    pub query: Query,
}

/// Everything the external subscription engine needs from the core to set a
/// subscription up: the resolved target and the process-wide limits. The
/// live store handle, the pub/sub manager and the result stream stay with
/// the caller.
#[derive(Clone, Copy, Debug)]
pub struct SubscriptionOptions {
    pub target: QueryTarget,
    pub shape_hash: u64,
    pub timeout_ms: Option<u64>,
    pub max_complexity: Option<u64>,
    pub max_depth: u32,
    pub max_first: u32,
    pub max_skip: u32,
}

/// The errors inside a refused subscription.
pub open spec fn subscription_errors(e: SubscriptionError) -> Seq<QueryExecutionError> {
    match e {
        SubscriptionError::GraphQLError(es) => es@,
    }
}

/// Whether `r` is exactly what one whole query call must produce from the
/// injected collaborator answers: the stopping error if validation or
/// admission refuses the call; otherwise the revert error if the guard
/// fails against the state reached; otherwise the merged payload — a
/// failure when a partition erred under the escalating policy, a success
/// otherwise, carrying the same payload either way.
pub open spec fn execute_result_matches(
    cfg: RunnerConfig,
    lm: LoadManager,
    query: Query,
    pre_state: DeploymentState,
    post_state: DeploymentState,
    outcomes: Seq<PartitionOutcome>,
    max_complexity: Option<u64>,
    max_depth: Option<u32>,
    r: Result<QueryResults, QueryResults>,
) -> bool {
    let n = outcomes.len() as int;
    match start_error(cfg, lm, query, max_complexity, max_depth) {
        Some(e) => r matches Err(p) && p.data@.len() == 0 && p.errors@ == seq![e],
        None => {
            if guard_spec(cfg.allow_deployment_change, pre_state, post_state,
                    max_observed(outcomes, n)) == GuardOutcome::Reverted {
                r matches Err(p) && p.data@.len() == 0
                    && p.errors@ == seq![QueryExecutionError::DeploymentReverted]
            } else if any_denied(expected_partitions(query), outcomes, n) {
                r matches Err(p) && p.data@ == merged_data(outcomes, n)
                    && p.errors@ == merged_errors(outcomes, n)
            } else {
                r matches Ok(p) && p.data@ == merged_data(outcomes, n)
                    && p.errors@ == merged_errors(outcomes, n)
            }
        },
    }
}

/// As [`execute_result_matches`], after failure and success have been
/// collapsed into the one payload a client receives.
pub open spec fn run_result_matches(
    cfg: RunnerConfig,
    lm: LoadManager,
    query: Query,
    pre_state: DeploymentState,
    post_state: DeploymentState,
    outcomes: Seq<PartitionOutcome>,
    max_complexity: Option<u64>,
    max_depth: Option<u32>,
    r: QueryResults,
) -> bool {
    let n = outcomes.len() as int;
    match start_error(cfg, lm, query, max_complexity, max_depth) {
        Some(e) => r.data@.len() == 0 && r.errors@ == seq![e],
        None => {
            if guard_spec(cfg.allow_deployment_change, pre_state, post_state,
                    max_observed(outcomes, n)) == GuardOutcome::Reverted {
                r.data@.len() == 0
                    && r.errors@ == seq![QueryExecutionError::DeploymentReverted]
            } else {
                r.data@ == merged_data(outcomes, n) && r.errors@ == merged_errors(outcomes, n)
            }
        },
    }
}

/// The runner: configuration, the admission controller, and the
/// process-wide result-size metrics. One value lives for the process
/// lifetime; every call goes through it.
#[derive(Debug)]
pub struct GraphQlRunner {
    pub config: RunnerConfig,
    pub load_manager: LoadManager,
    pub result_size: ResultSizeMetrics,
}

impl GraphQlRunner {
    /// The runner's metrics always carry their full set of buckets.
    pub open spec fn wf(&self) -> bool {
        self.result_size.wf()
    }

    /// Creates a new query runner with fresh, empty metrics.
    pub fn new(config: RunnerConfig, load_manager: LoadManager) -> (r: GraphQlRunner)
        ensures
            r.wf(),
            r.config == config,
            r.load_manager == load_manager,
            r.result_size.max == 0,
            forall|i: int| 0 <= i < BUCKETS ==> r.result_size.counts@[i] == 0,
    {
        GraphQlRunner { config, load_manager, result_size: ResultSizeMetrics::new() }
    }

    /// The admission controller the runner gates on.
    pub fn load_manager(&self) -> (r: LoadManager)
        ensures
            r == self.load_manager,
    {
        self.load_manager
    }

    /// The consistency guard over one call: whether the deployment changed
    /// between `state`, captured at query start, and `new_state`, reached at
    /// its end, in a way that could have affected a query that looked at
    /// data as fresh as `latest_block`. The store guarantees the
    /// reorganization count never decreases within one call; a caller that
    /// sees it decrease must fail loudly (see [`guard_check`]) instead.
    pub fn deployment_changed(
        &self,
        state: DeploymentState,
        new_state: DeploymentState,
        latest_block: u64,
    ) -> (r: Result<(), QueryExecutionError>)
        requires
            new_state.reorg_count >= state.reorg_count,
        ensures
            guard_spec(self.config.allow_deployment_change, state, new_state, latest_block)
                == GuardOutcome::Pass <==> r is Ok,
            r matches Err(e) ==> e == QueryExecutionError::DeploymentReverted,
    {
        match guard_check(self.config.allow_deployment_change, state, new_state, latest_block) {
            GuardOutcome::Pass => Ok(()),
            _ => Err(QueryExecutionError::DeploymentReverted),
        }
    }

    /// One whole query call over the collaborators' answers: `pre_state`
    /// and `post_state` are the deployment states captured before and after
    /// on the one pinned store handle, `wait_ms` its recent wait-time
    /// statistic, and `outcomes` what resolving and executing each
    /// partition in order came to. Validates, gates on admission, merges
    /// the outcomes in order, feeds the result-size recorder for each
    /// partition that produced data, and runs the consistency guard; a
    /// refused call leaves the metrics untouched.
    pub fn execute(
        &mut self,
        query: Query,
        target: QueryTarget,
        pre_state: DeploymentState,
        post_state: DeploymentState,
        wait_ms: u64,
        outcomes: Vec<PartitionOutcome>,
        max_complexity: Option<u64>,
        max_depth: Option<u32>,
        max_first: Option<u32>,
        max_skip: Option<u32>,
    ) -> (r: Result<QueryResults, QueryResults>)
        requires
            old(self).wf(),
            outcomes@.len() == expected_partitions(query).len(),
            post_state.reorg_count >= pre_state.reorg_count,
        ensures
            final(self).wf(),
            final(self).config == old(self).config,
            final(self).load_manager == old(self).load_manager,
            execute_result_matches(old(self).config, old(self).load_manager, query,
                pre_state, post_state, outcomes@, max_complexity, max_depth, r),
            start_error(old(self).config, old(self).load_manager, query, max_complexity,
                max_depth) is Some ==> final(self).result_size == old(self).result_size,
            start_error(old(self).config, old(self).load_manager, query, max_complexity,
                max_depth) is None ==> {
                &&& final(self).result_size.counts@ == counts_after_outcomes(
                    old(self).result_size.counts@, outcomes@, outcomes@.len() as int)
                &&& final(self).result_size.max == max_after_outcomes(
                    old(self).result_size.max, outcomes@, outcomes@.len() as int)
            },
    {
        let ghost all: Seq<PartitionOutcome> = outcomes@;
        let mut o = match Orchestration::start(&self.config, &self.load_manager, query, target,
            pre_state, wait_ms, max_complexity, max_depth, max_first, max_skip) {
            Ok(o) => o,
            Err(p) => {
                return Err(p);
            },
        };
        let mut rest = outcomes;
        let n: usize = rest.len();
        let mut i: usize = 0;
        while i < n
            invariant
                n == all.len(),
                i <= n,
                rest@ == all.skip(i as int),
                o.wf(),
                o.partitions@ == expected_partitions(query),
                o.partitions@.len() == n,
                o.next == i,
                o.merged.data@ == merged_data(all, i as int),
                o.merged.errors@ == merged_errors(all, i as int),
                o.max_block == max_observed(all, i as int),
                o.failed == any_denied(expected_partitions(query), all, i as int),
                o.pre_state == pre_state,
                o.allow_change == old(self).config.allow_deployment_change,
                self.result_size.wf(),
                self.result_size.counts@ == counts_after_outcomes(
                    old(self).result_size.counts@, all, i as int),
                self.result_size.max == max_after_outcomes(
                    old(self).result_size.max, all, i as int),
                self.config == old(self).config,
                self.load_manager == old(self).load_manager,
            decreases n - i,
        {
            let oc = rest.remove(0);
            proof {
                assert(all.skip(i as int).remove(0) =~= all.skip(i as int + 1));
                assert(oc == all[i as int]);
            }
            o.record_partition(&mut self.result_size, oc);
            i += 1;
        }
        o.finish(post_state)
    }

    /// Runs a query with explicit resource limits, falling back to the
    /// configured defaults for each limit left unset. Failure and success
    /// collapse into the one payload a client receives: clients distinguish
    /// them by the errors it carries.
    pub fn run_query_with_complexity(
        &mut self,
        query: Query,
        target: QueryTarget,
        pre_state: DeploymentState,
        post_state: DeploymentState,
        wait_ms: u64,
        outcomes: Vec<PartitionOutcome>,
        max_complexity: Option<u64>,
        max_depth: Option<u32>,
        max_first: Option<u32>,
        max_skip: Option<u32>,
    ) -> (r: QueryResults)
        requires
            old(self).wf(),
            outcomes@.len() == expected_partitions(query).len(),
            post_state.reorg_count >= pre_state.reorg_count,
        ensures
            final(self).wf(),
            final(self).config == old(self).config,
            final(self).load_manager == old(self).load_manager,
            run_result_matches(old(self).config, old(self).load_manager, query, pre_state,
                post_state, outcomes@, max_complexity, max_depth, r),
            start_error(old(self).config, old(self).load_manager, query, max_complexity,
                max_depth) is Some ==> final(self).result_size == old(self).result_size,
            start_error(old(self).config, old(self).load_manager, query, max_complexity,
                max_depth) is None ==> {
                &&& final(self).result_size.counts@ == counts_after_outcomes(
                    old(self).result_size.counts@, outcomes@, outcomes@.len() as int)
                &&& final(self).result_size.max == max_after_outcomes(
                    old(self).result_size.max, outcomes@, outcomes@.len() as int)
            },
    {
        match self.execute(query, target, pre_state, post_state, wait_ms, outcomes,
            max_complexity, max_depth, max_first, max_skip) {
            Ok(r) => r,
            Err(e) => e,
        }
    }

    /// Runs a query under the configured default limits.
    pub fn run_query(
        &mut self,
        query: Query,
        target: QueryTarget,
        pre_state: DeploymentState,
        post_state: DeploymentState,
        wait_ms: u64,
        outcomes: Vec<PartitionOutcome>,
    ) -> (r: QueryResults)
        requires
            old(self).wf(),
            outcomes@.len() == expected_partitions(query).len(),
            post_state.reorg_count >= pre_state.reorg_count,
        ensures
            final(self).wf(),
            final(self).config == old(self).config,
            final(self).load_manager == old(self).load_manager,
            run_result_matches(old(self).config, old(self).load_manager, query, pre_state,
                post_state, outcomes@, old(self).config.max_complexity,
                Some(old(self).config.max_depth), r),
            start_error(old(self).config, old(self).load_manager, query,
                old(self).config.max_complexity, Some(old(self).config.max_depth)) is Some
                ==> final(self).result_size == old(self).result_size,
            start_error(old(self).config, old(self).load_manager, query,
                old(self).config.max_complexity, Some(old(self).config.max_depth)) is None
                ==> {
                &&& final(self).result_size.counts@ == counts_after_outcomes(
                    old(self).result_size.counts@, outcomes@, outcomes@.len() as int)
                &&& final(self).result_size.max == max_after_outcomes(
                    old(self).result_size.max, outcomes@, outcomes@.len() as int)
            },
    {
        let max_complexity: Option<u64> = self.config.max_complexity;
        let max_depth: u32 = self.config.max_depth;
        let max_first: u32 = self.config.max_first;
        let max_skip: u32 = self.config.max_skip;
        self.run_query_with_complexity(query, target, pre_state, post_state, wait_ms, outcomes,
            max_complexity, Some(max_depth), Some(max_first), Some(max_skip))
    }

    /// Sets up a subscription: builds the internal query representation
    /// under the configured defaults and gates on the admission controller,
    /// exactly as for a query; a refusal is wrapped in the
    /// subscription-specific error carrying the underlying query errors.
    /// Succeeds with everything the external subscription engine needs; no
    /// partitioning and no consistency guard apply, since a subscription
    /// observes a continuously advancing view, not a pinned snapshot.
    pub fn run_subscription(
        &self,
        subscription: Subscription,
        target: QueryTarget,
        wait_ms: u64,
    ) -> (r: Result<SubscriptionOptions, SubscriptionError>)
        ensures
            start_error(self.config, self.load_manager, subscription.query,
                self.config.max_complexity, None) matches Some(e)
                ==> (r matches Err(se) && subscription_errors(se) == seq![e]),
            start_error(self.config, self.load_manager, subscription.query,
                self.config.max_complexity, None) is None
                ==> (r matches Ok(o)
                    && o.target == target
                    && o.shape_hash == subscription.query.shape_hash
                    && o.timeout_ms == self.config.query_timeout_ms
                    && o.max_complexity == self.config.max_complexity
                    && o.max_depth == self.config.max_depth
                    && o.max_first == self.config.max_first
                    && o.max_skip == self.config.max_skip),
    {
        let shape_hash: u64 = subscription.query.shape_hash;
        let max_complexity: Option<u64> = self.config.max_complexity;
        let max_depth: u32 = self.config.max_depth;
        if let Err(e) = crate::query::prepare(subscription.query, max_complexity, max_depth) {
            let mut es: Vec<QueryExecutionError> = Vec::new();
            es.push(e);
            proof {
                assert(es@ =~= seq![e]);
            }
            return Err(SubscriptionError::GraphQLError(es));
        }
        let decision = self.load_manager.decide(wait_ms, shape_hash);
        if let Err(e) = decision.to_result() {
            let mut es: Vec<QueryExecutionError> = Vec::new();
            es.push(e);
            proof {
                assert(es@ =~= seq![e]);
            }
            return Err(SubscriptionError::GraphQLError(es));
        }
        Ok(SubscriptionOptions {
            target,
            shape_hash,
            timeout_ms: self.config.query_timeout_ms,
            max_complexity,
            max_depth,
            max_first: self.config.max_first,
            max_skip: self.config.max_skip,
        })
    }
}

} // verus!
