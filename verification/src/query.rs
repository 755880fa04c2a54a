//! The internal query representation: block constraints, the partitions a
//! query decomposes into, and the validation that turns an incoming parsed
//! query into a prepared one.

use vstd::prelude::*;
use crate::errors::QueryExecutionError;

verus! {

/// A requested upper bound on which indexed state a part of the query may
/// observe.
#[derive(Clone, Copy, Debug, PartialEq, Eq, Structural)]
pub enum BlockConstraint {
    /// Observe the newest state the pinned store handle offers.
    Latest,
    /// Observe the state as of the given block number.
    Number(u64),
}

/// How errors of one partition fold into the merged result.
#[derive(Clone, Copy, Debug, PartialEq, Eq, Structural)]
pub enum ErrorPolicy {
    /// The partition's data and errors both join the merged result and the
    /// remaining partitions still run; the call can succeed with partial
    /// data beside the errors.
    Allow,
    /// The partition's data and errors still join the merged result and the
    /// remaining partitions still run, but any error of the partition turns
    /// the whole call into a failure.
    Deny,
}

/// One unit of execution: a block constraint, the part of the query pinned
/// to it, and how its errors are treated. The selection names the
/// selection-subset of the query for the execution engine; the core only
/// passes it through.
#[derive(Clone, Copy, Debug, PartialEq, Eq, Structural)]
pub struct Partition {
    pub constraint: BlockConstraint,
    pub error_policy: ErrorPolicy,
    pub selection: u64,
}

/// An incoming query, already parsed and measured by the external engine:
/// its shape fingerprint, its cost score, its nesting depth, and the
/// partitions its block-pinning directives decompose it into. A query
/// without any directive has no partitions here and gets the single
/// implicit latest-block partition.
#[derive(Debug)]
pub struct Query {
    /// Stable hash of the query's shape, the admission controller's key.
    pub shape_hash: u64,
    /// The query's cost score.
    pub complexity: u64,
    /// The query's nesting depth.
    pub depth: u32,
    /// One partition per block-pinning directive, in query order.
    pub partitions: Vec<Partition>,
}

/// The partition every query without block-pinning directives gets: the
/// whole selection, at the latest block, with errors escalating.
pub open spec fn default_partition() -> Partition {
    Partition {
        constraint: BlockConstraint::Latest,
        error_policy: ErrorPolicy::Deny,
        selection: 0,
    }
}

/// The partitions a query runs as. Never empty: the loop over them always
/// executes at least once.
pub open spec fn expected_partitions(q: Query) -> Seq<Partition> {
    if q.partitions@.len() == 0 {
        seq![default_partition()]
    } else {
        q.partitions@
    }
}

/// The depth-bound error a query draws, if any.
pub open spec fn depth_error(q: Query, max_depth: u32) -> Option<QueryExecutionError> {
    if q.depth > max_depth {
        Some(QueryExecutionError::TooDeep { depth: q.depth, max_depth })
    } else {
        None
    }
}

/// The validation error a query draws under the given bounds, if any: the
/// cost bound is checked first, the depth bound second. `None` for the cost
/// bound means unlimited.
pub open spec fn validation_error(
    q: Query,
    max_complexity: Option<u64>,
    max_depth: u32,
) -> Option<QueryExecutionError> {
    match max_complexity {
        Some(m) => if q.complexity > m {
            Some(QueryExecutionError::TooComplex {
                complexity: q.complexity,
                max_complexity: m,
            })
        } else {
            depth_error(q, max_depth)
        },
        None => depth_error(q, max_depth),
    }
}

/// A query that passed validation, with its partitions made explicit.
#[derive(Debug)]
pub struct PreparedQuery {
    pub shape_hash: u64,
    /// The partitions to run, in order; never empty.
    pub partitions: Vec<Partition>,
}

/// Validates the query against the given bounds and makes its partitions
/// explicit. Fails with exactly the query's validation error; succeeds with
/// the query's partitions, or the single implicit latest-block partition
/// for a query without directives.
pub fn prepare(
    query: Query,
    max_complexity: Option<u64>,
    max_depth: u32,
) -> (r: Result<PreparedQuery, QueryExecutionError>)
    ensures
        validation_error(query, max_complexity, max_depth) matches Some(e)
            ==> r == Result::<PreparedQuery, QueryExecutionError>::Err(e),
        validation_error(query, max_complexity, max_depth) is None
            ==> (r matches Ok(p)
                && p.shape_hash == query.shape_hash
                && p.partitions@ == expected_partitions(query)
                && p.partitions@.len() >= 1),
{
    if let Some(m) = max_complexity {
        if query.complexity > m {
            return Err(QueryExecutionError::TooComplex {
                complexity: query.complexity,
                max_complexity: m,
            });
        }
    }
    if query.depth > max_depth {
        return Err(QueryExecutionError::TooDeep { depth: query.depth, max_depth });
    }
    let mut partitions = query.partitions;
    if partitions.len() == 0 {
        partitions.push(Partition {
            constraint: BlockConstraint::Latest,
            error_policy: ErrorPolicy::Deny,
            selection: 0,
        });
        proof {
            assert(partitions@ =~= seq![default_partition()]);
        }
    }
    Ok(PreparedQuery { shape_hash: query.shape_hash, partitions })
}

} // verus!
