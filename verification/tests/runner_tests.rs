use graphql_runner::admission::{Decision, LoadManager};
use graphql_runner::config::RunnerConfig;
use graphql_runner::deployment::{DeploymentState, QueryTarget};
use graphql_runner::errors::{QueryExecutionError, SubscriptionError};
use graphql_runner::orchestration::{Orchestration, PartitionOutcome};
use graphql_runner::query::{BlockConstraint, ErrorPolicy, Partition, Query};
use graphql_runner::results::PartitionResult;
use graphql_runner::runner::{GraphQlRunner, Subscription};

fn config() -> RunnerConfig {
    RunnerConfig {
        allow_deployment_change: false,
        max_complexity: Some(1000),
        max_depth: 100,
        max_first: 1000,
        max_skip: 100,
        query_timeout_ms: Some(30_000),
    }
}

fn runner(decision: Decision) -> GraphQlRunner {
    GraphQlRunner::new(config(), LoadManager::new(decision))
}

fn state(reorg_count: u64, max_reorg_depth: u64, latest_block_number: u64) -> DeploymentState {
    DeploymentState { reorg_count, max_reorg_depth, latest_block_number }
}

fn latest_query() -> Query {
    Query { shape_hash: 42, complexity: 10, depth: 3, partitions: vec![] }
}

fn target() -> QueryTarget {
    QueryTarget { deployment: 1 }
}

fn success(block: u64, data: u64, weight: usize) -> PartitionOutcome {
    PartitionOutcome {
        block,
        result: PartitionResult { data: Some(data), weight, errors: vec![] },
    }
}

#[test]
fn scenario_single_latest_query_succeeds() {
    // One deployment, no reorg, one implicit latest constraint: the query
    // executes once, the guard passes, and the recorder's max rises to the
    // result's size.
    let mut r = runner(Decision::Proceed);
    let pre = state(3, 10, 1000);
    let post = pre;
    let out = r.run_query(latest_query(), target(), pre, post, 5, vec![success(1000, 7, 2048)]);
    assert_eq!(out.data, vec![7]);
    assert!(out.errors.is_empty());
    assert_eq!(r.result_size.max, 2048);
    assert_eq!(r.result_size.counts[1], 1);
}

#[test]
fn scenario_reverted_past_observation_window() {
    // The reorg count advances by one with depth 10 while the query
    // observed block 995 of 1000: 995 + 10 > 1000, so the call fails with
    // the revert error and the computed data is superseded.
    let mut r = runner(Decision::Proceed);
    let pre = state(1, 10, 1000);
    let post = state(2, 10, 1050);
    let out = r.run_query(latest_query(), target(), pre, post, 5, vec![success(995, 7, 100)]);
    assert!(out.data.is_empty());
    assert_eq!(out.errors, vec![QueryExecutionError::DeploymentReverted]);
}

#[test]
fn scenario_reorg_behind_observation_window() {
    // As above but the query observed block 985: 985 + 10 <= 1000, so the
    // reorg happened safely behind the query and the result stands.
    let mut r = runner(Decision::Proceed);
    let pre = state(1, 10, 1000);
    let post = state(2, 10, 1050);
    let out = r.run_query(latest_query(), target(), pre, post, 5, vec![success(985, 7, 100)]);
    assert_eq!(out.data, vec![7]);
    assert!(out.errors.is_empty());
}

#[test]
fn scenario_two_partitions_merge_despite_error() {
    // Two explicit block constraints; the first errors under the
    // continue-on-error policy. Both partitions execute and both fold into
    // one result: the second's data beside the first's error.
    let mut r = runner(Decision::Proceed);
    let q = Query {
        shape_hash: 7,
        complexity: 10,
        depth: 3,
        partitions: vec![
            Partition {
                constraint: BlockConstraint::Number(100),
                error_policy: ErrorPolicy::Allow,
                selection: 1,
            },
            Partition {
                constraint: BlockConstraint::Number(200),
                error_policy: ErrorPolicy::Allow,
                selection: 2,
            },
        ],
    };
    let pre = state(3, 10, 1000);
    let outcomes = vec![
        PartitionOutcome {
            block: 100,
            result: PartitionResult {
                data: None,
                weight: 0,
                errors: vec![QueryExecutionError::ExecutionFailed { code: 9 }],
            },
        },
        success(200, 8, 512),
    ];
    let out = r
        .execute(q, target(), pre, pre, 5, outcomes, Some(1000), Some(100), None, None)
        .expect("continue-on-error keeps the call a success");
    assert_eq!(out.data, vec![8]);
    assert_eq!(out.errors, vec![QueryExecutionError::ExecutionFailed { code: 9 }]);
}

#[test]
fn escalating_policy_fails_whole_call() {
    // The same partitions, but the failing one escalates: every partition
    // still executes and merges, yet the whole call comes back as a
    // failure carrying the merged payload.
    let mut r = runner(Decision::Proceed);
    let q = Query {
        shape_hash: 7,
        complexity: 10,
        depth: 3,
        partitions: vec![
            Partition {
                constraint: BlockConstraint::Number(100),
                error_policy: ErrorPolicy::Deny,
                selection: 1,
            },
            Partition {
                constraint: BlockConstraint::Number(200),
                error_policy: ErrorPolicy::Allow,
                selection: 2,
            },
        ],
    };
    let pre = state(3, 10, 1000);
    let outcomes = vec![
        PartitionOutcome {
            block: 100,
            result: PartitionResult {
                data: None,
                weight: 0,
                errors: vec![QueryExecutionError::BlockNotFound { number: 100 }],
            },
        },
        success(200, 8, 512),
    ];
    let out = r.execute(q, target(), pre, pre, 5, outcomes, Some(1000), Some(100), None, None);
    let payload = out.expect_err("an escalated partition error fails the call");
    assert_eq!(payload.data, vec![8]);
    assert_eq!(payload.errors, vec![QueryExecutionError::BlockNotFound { number: 100 }]);
}

#[test]
fn admission_rejection_short_circuits() {
    // A controller that always rejects: the call fails with its reason
    // before any partition work, and the recorder sees nothing.
    let mut r = runner(Decision::TooExpensive);
    let pre = state(3, 10, 1000);
    let out = r.run_query(latest_query(), target(), pre, pre, 5, vec![success(1000, 7, 2048)]);
    assert!(out.data.is_empty());
    assert_eq!(out.errors, vec![QueryExecutionError::TooExpensive]);
    assert_eq!(r.result_size.max, 0);
    assert!(r.result_size.counts.iter().all(|&c| c == 0));

    // The machine itself refuses to open: no partition is ever handed out.
    let started = Orchestration::start(
        &config(),
        &LoadManager::new(Decision::TooExpensive),
        latest_query(),
        target(),
        pre,
        5,
        Some(1000),
        None,
        None,
        None,
    );
    assert!(started.is_err());
}

#[test]
fn throttled_call_reports_throttling() {
    let mut r = runner(Decision::Throttle);
    let pre = state(3, 10, 1000);
    let out = r.run_query(latest_query(), target(), pre, pre, 5, vec![success(1000, 7, 10)]);
    assert_eq!(out.errors, vec![QueryExecutionError::Throttled]);
}

#[test]
fn validation_refuses_before_admission() {
    // Complexity over the default bound: refused with the validation
    // error, even though the controller would also have refused.
    let mut r = runner(Decision::TooExpensive);
    let q = Query { shape_hash: 1, complexity: 2000, depth: 3, partitions: vec![] };
    let pre = state(3, 10, 1000);
    let out = r.run_query(q, target(), pre, pre, 5, vec![success(1000, 7, 10)]);
    assert_eq!(
        out.errors,
        vec![QueryExecutionError::TooComplex { complexity: 2000, max_complexity: 1000 }]
    );
}

#[test]
fn explicit_limits_override_defaults() {
    let mut r = runner(Decision::Proceed);
    let q = Query { shape_hash: 1, complexity: 50, depth: 3, partitions: vec![] };
    let pre = state(3, 10, 1000);
    let out = r.run_query_with_complexity(
        q,
        target(),
        pre,
        pre,
        5,
        vec![success(1000, 7, 10)],
        Some(49),
        None,
        None,
        None,
    );
    assert_eq!(
        out.errors,
        vec![QueryExecutionError::TooComplex { complexity: 50, max_complexity: 49 }]
    );
}

#[test]
fn machine_hands_out_partitions_in_order() {
    // Driving the machine by hand: it hands out each partition exactly
    // once, in order, and then nothing.
    let p0 = Partition {
        constraint: BlockConstraint::Number(100),
        error_policy: ErrorPolicy::Allow,
        selection: 1,
    };
    let p1 = Partition {
        constraint: BlockConstraint::Number(200),
        error_policy: ErrorPolicy::Allow,
        selection: 2,
    };
    let q = Query { shape_hash: 7, complexity: 1, depth: 1, partitions: vec![p0, p1] };
    let pre = state(3, 10, 1000);
    let lm = LoadManager::new(Decision::Proceed);
    let mut metrics = graphql_runner::metrics::ResultSizeMetrics::make();
    let mut o =
        Orchestration::start(&config(), &lm, q, target(), pre, 5, None, None, None, None)
            .expect("admission proceeds");
    assert_eq!(o.next_partition(), Some(p0));
    o.record_partition(&mut metrics, success(100, 1, 10));
    assert_eq!(o.next_partition(), Some(p1));
    o.record_partition(&mut metrics, success(200, 2, 20));
    assert_eq!(o.next_partition(), None);
    assert_eq!(o.max_block, 200);
    let out = o.finish(pre).expect("no reorg, no escalation");
    assert_eq!(out.data, vec![1, 2]);
    assert!(out.errors.is_empty());
    // Each successful partition fed the recorder.
    assert_eq!(metrics.max, 20);
}

#[test]
fn subscription_setup_uses_configured_defaults() {
    let r = runner(Decision::Proceed);
    let sub = Subscription { query: latest_query() };
    let opts = r.run_subscription(sub, target(), 5).expect("admitted");
    assert_eq!(opts.target, target());
    assert_eq!(opts.shape_hash, 42);
    assert_eq!(opts.timeout_ms, Some(30_000));
    assert_eq!(opts.max_complexity, Some(1000));
    assert_eq!(opts.max_depth, 100);
    assert_eq!(opts.max_first, 1000);
    assert_eq!(opts.max_skip, 100);
}

#[test]
fn subscription_rejection_wraps_query_errors() {
    let r = runner(Decision::TooExpensive);
    let sub = Subscription { query: latest_query() };
    let err = r.run_subscription(sub, target(), 5).expect_err("rejected");
    let SubscriptionError::GraphQLError(es) = err;
    assert_eq!(es, vec![QueryExecutionError::TooExpensive]);
}

#[test]
fn subscription_validation_error_wrapped_too() {
    let r = runner(Decision::Proceed);
    let q = Query { shape_hash: 1, complexity: 1, depth: 200, partitions: vec![] };
    let err = r.run_subscription(Subscription { query: q }, target(), 5).expect_err("too deep");
    let SubscriptionError::GraphQLError(es) = err;
    assert_eq!(es, vec![QueryExecutionError::TooDeep { depth: 200, max_depth: 100 }]);
}

#[test]
fn load_manager_getter_returns_controller() {
    let r = runner(Decision::Throttle);
    assert_eq!(r.load_manager().decision, Decision::Throttle);
}

#[test]
fn guard_disabled_runner_ignores_reverts() {
    let mut cfg = config();
    cfg.allow_deployment_change = true;
    let mut r = GraphQlRunner::new(cfg, LoadManager::new(Decision::Proceed));
    let pre = state(1, 10, 1000);
    let post = state(5, 10, 900);
    let out = r.run_query(latest_query(), target(), pre, post, 5, vec![success(1000, 7, 10)]);
    assert_eq!(out.data, vec![7]);
    assert!(out.errors.is_empty());
}
