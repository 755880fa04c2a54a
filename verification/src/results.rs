//! Query results and their merging. A merged result accumulates the data
//! and the errors of successive partitions with union semantics: later
//! partitions add to what earlier ones produced, they never replace it.

use vstd::prelude::*;
use crate::errors::QueryExecutionError;

verus! {

/// What the execution engine returned for one partition: an opaque payload
/// handle if the partition produced data, the payload's size in abstract
/// weight units, and the partition's errors. Data and errors can coexist.
#[derive(Debug)]
pub struct PartitionResult {
    /// Handle onto the partition's data payload, if it produced one. The
    /// payload itself stays with the engine; the core only merges handles.
    pub data: Option<u64>,
    /// Size of the payload in abstract weight units; meaningful only when
    /// `data` is present.
    pub weight: usize,
    /// The partition's errors, in the order the engine reported them.
    pub errors: Vec<QueryExecutionError>,
}

/// The accumulated payload of one whole call: the data handles of every
/// partition that produced data, and every partition's errors, both in
/// partition order.
#[derive(Debug)]
pub struct QueryResults {
    pub data: Vec<u64>,
    pub errors: Vec<QueryExecutionError>,
}

impl QueryResults {
    /// The empty payload: no data, no errors.
    pub fn empty() -> (r: QueryResults)
        ensures
            r.data@.len() == 0,
            r.errors@.len() == 0,
    {
        QueryResults { data: Vec::new(), errors: Vec::new() }
    }

    /// A payload that carries nothing but the one error.
    pub fn from_error(e: QueryExecutionError) -> (r: QueryResults)
        ensures
            r.data@.len() == 0,
            r.errors@ == seq![e],
    {
        let mut errors: Vec<QueryExecutionError> = Vec::new();
        errors.push(e);
        proof {
            assert(errors@ =~= seq![e]);
        }
        QueryResults { data: Vec::new(), errors }
    }

    /// Folds one partition's result in: its data handle, if any, and all
    /// its errors join the payload, after everything already there.
    pub fn append(&mut self, part: PartitionResult)
        ensures
            final(self).data@ == match part.data {
                Some(d) => old(self).data@.push(d),
                None => old(self).data@,
            },
            final(self).errors@ == old(self).errors@ + part.errors@,
    {
        if let Some(d) = part.data {
            self.data.push(d);
        }
        let mut i: usize = 0;
        while i < part.errors.len()
            invariant
                i <= part.errors@.len(),
                self.errors@ == old(self).errors@ + part.errors@.take(i as int),
                self.data@ == match part.data {
                    Some(d) => old(self).data@.push(d),
                    None => old(self).data@,
                },
            decreases part.errors@.len() - i,
        {
            let e: QueryExecutionError = part.errors[i];
            self.errors.push(e);
            proof {
                assert(old(self).errors@ + part.errors@.take(i as int).push(e)
                    =~= old(self).errors@ + part.errors@.take(i as int + 1));
            }
            i += 1;
        }
        proof {
            assert(part.errors@.take(part.errors@.len() as int) =~= part.errors@);
        }
    }
}

} // verus!
