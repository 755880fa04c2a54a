use graphql_runner::admission::Decision;
use graphql_runner::errors::QueryExecutionError;
use graphql_runner::query::{prepare, BlockConstraint, ErrorPolicy, Partition, Query};
use graphql_runner::results::{PartitionResult, QueryResults};

fn plain_query(partitions: Vec<Partition>) -> Query {
    Query { shape_hash: 42, complexity: 10, depth: 3, partitions }
}

#[test]
fn prepare_rejects_too_complex() {
    let q = plain_query(vec![]);
    let r = prepare(q, Some(9), 100);
    assert!(matches!(
        r,
        Err(QueryExecutionError::TooComplex { complexity: 10, max_complexity: 9 })
    ));
}

#[test]
fn prepare_rejects_too_deep() {
    let q = plain_query(vec![]);
    let r = prepare(q, Some(10), 2);
    assert!(matches!(r, Err(QueryExecutionError::TooDeep { depth: 3, max_depth: 2 })));
}

#[test]
fn prepare_checks_complexity_before_depth() {
    let q = plain_query(vec![]);
    let r = prepare(q, Some(9), 2);
    assert!(matches!(r, Err(QueryExecutionError::TooComplex { .. })));
}

#[test]
fn prepare_unlimited_complexity() {
    let q = Query { shape_hash: 1, complexity: u64::MAX, depth: 0, partitions: vec![] };
    assert!(prepare(q, None, 100).is_ok());
}

#[test]
fn prepare_adds_implicit_latest_partition() {
    let q = plain_query(vec![]);
    let p = prepare(q, Some(10), 3).unwrap();
    assert_eq!(p.shape_hash, 42);
    assert_eq!(p.partitions.len(), 1);
    assert_eq!(
        p.partitions[0],
        Partition { constraint: BlockConstraint::Latest, error_policy: ErrorPolicy::Deny, selection: 0 }
    );
}

#[test]
fn prepare_keeps_explicit_partitions() {
    let parts = vec![
        Partition { constraint: BlockConstraint::Number(100), error_policy: ErrorPolicy::Allow, selection: 1 },
        Partition { constraint: BlockConstraint::Number(200), error_policy: ErrorPolicy::Deny, selection: 2 },
    ];
    let p = prepare(plain_query(parts.clone()), Some(10), 3).unwrap();
    assert_eq!(p.partitions, parts);
}

#[test]
fn decision_maps_to_result() {
    assert_eq!(Decision::Proceed.to_result(), Ok(()));
    assert_eq!(Decision::TooExpensive.to_result(), Err(QueryExecutionError::TooExpensive));
    assert_eq!(Decision::Throttle.to_result(), Err(QueryExecutionError::Throttled));
}

#[test]
fn results_merge_with_union_semantics() {
    let mut r = QueryResults::empty();
    assert!(r.data.is_empty() && r.errors.is_empty());
    r.append(PartitionResult { data: Some(7), weight: 10, errors: vec![] });
    r.append(PartitionResult {
        data: None,
        weight: 0,
        errors: vec![QueryExecutionError::BlockNotFound { number: 5 }],
    });
    r.append(PartitionResult {
        data: Some(8),
        weight: 3,
        errors: vec![QueryExecutionError::ExecutionFailed { code: 2 }],
    });
    // Later partitions add to earlier ones, in order; nothing is replaced.
    assert_eq!(r.data, vec![7, 8]);
    assert_eq!(
        r.errors,
        vec![
            QueryExecutionError::BlockNotFound { number: 5 },
            QueryExecutionError::ExecutionFailed { code: 2 },
        ]
    );
}

#[test]
fn results_from_error_carries_only_that_error() {
    let r = QueryResults::from_error(QueryExecutionError::Throttled);
    assert!(r.data.is_empty());
    assert_eq!(r.errors, vec![QueryExecutionError::Throttled]);
}
