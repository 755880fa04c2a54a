//! The admission-control gate. The decision algorithm itself — statistics,
//! thresholds — is an external authority; the core only consumes its
//! decision, at exactly two places: once on the query path and once on the
//! subscription path, always before any execution work begins.

use vstd::prelude::*;
use crate::errors::QueryExecutionError;

verus! {

/// What the admission controller decided for one query.
#[derive(Clone, Copy, Debug, PartialEq, Eq, Structural)]
pub enum Decision {
    /// Run the query.
    Proceed,
    /// Refuse the query outright: it is too expensive to run now.
    TooExpensive,
    /// Refuse the query and ask the client to slow down.
    Throttle,
}

/// The error a decision maps to, if it refuses the query.
pub open spec fn decision_error(d: Decision) -> Option<QueryExecutionError> {
    match d {
        Decision::Proceed => None,
        Decision::TooExpensive => Some(QueryExecutionError::TooExpensive),
        Decision::Throttle => Some(QueryExecutionError::Throttled),
    }
}

impl Decision {
    /// Converts the decision into either leave to proceed or the error that
    /// refuses the query.
    pub fn to_result(self) -> (r: Result<(), QueryExecutionError>)
        ensures
            decision_error(self) matches Some(e) ==> r == Result::<(), QueryExecutionError>::Err(e),
            decision_error(self) is None ==> r is Ok,
    {
        match self {
            Decision::Proceed => Ok(()),
            Decision::TooExpensive => Err(QueryExecutionError::TooExpensive),
            Decision::Throttle => Err(QueryExecutionError::Throttled),
        }
    }
}

/// Stand-in for the external decision authority. Production wires in the
/// real controller at the boundary; here the controller is injected as the
/// fixed decision it would return, which is all the core ever reads of it.
#[derive(Clone, Copy, Debug)]
pub struct LoadManager {
    /// The decision the controller returns for every query.
    pub decision: Decision,
}

impl LoadManager {
    /// A controller that always answers `decision`.
    pub fn new(decision: Decision) -> (r: LoadManager)
        ensures
            r.decision == decision,
    {
        LoadManager { decision }
    }

    /// Asks the controller about one query, identified by its shape
    /// fingerprint, given the recent wait-time statistics of the store
    /// handle. This stand-in ignores both and answers its configured
    /// decision.
    pub fn decide(&self, _wait_ms: u64, _shape_hash: u64) -> (d: Decision)
        ensures
            d == self.decision,
    {
        self.decision
    }
}

} // verus!
