//! The error taxonomy of the orchestration core.

use vstd::prelude::*;

verus! {

/// Why a query was refused, or why part of one failed.
#[derive(Clone, Copy, Debug, PartialEq, Eq, Structural)]
pub enum QueryExecutionError {
    /// The query's cost score exceeds the configured or requested bound.
    TooComplex { complexity: u64, max_complexity: u64 },
    /// The query nests deeper than the configured or requested bound.
    TooDeep { depth: u32, max_depth: u32 },
    /// The admission controller refused the query outright.
    TooExpensive,
    /// The admission controller asked for the query to be throttled.
    Throttled,
    /// The deployment reverted past the query's safe observation window
    /// while the query was running; the composed result cannot be trusted.
    DeploymentReverted,
    /// A partition's block constraint could not be resolved to an indexed
    /// block.
    BlockNotFound { number: u64 },
    /// The execution engine failed a partition; the code is the engine's.
    ExecutionFailed { code: u64 },
}

/// Why a subscription could not be set up.
#[derive(Debug)]
pub enum SubscriptionError {
    /// The underlying query-level errors, as for a plain query.
    GraphQLError(Vec<QueryExecutionError>),
}

} // verus!
