//! Result-size metrics: a bucketed histogram of the sizes of successful
//! query results, in abstract weight units, together with the largest size
//! observed so far. Cumulative for the lifetime of the runner; nothing is
//! ever evicted and the maximum is never lowered.

use vstd::prelude::*;

verus! {

/// Number of histogram buckets: one per power-of-two boundary from 2^10 to
/// 2^31 (roughly 1 KiB to 4 GiB of weight), and a final bucket for sizes
/// beyond the largest boundary.
pub const BUCKETS: usize = 23;

/// The boundary of bucket `i`: sizes up to `2^(10 + i)` fall into bucket
/// `i` or an earlier one. Only the first `BUCKETS - 1` buckets have a
/// boundary; the last collects everything larger.
pub open spec fn bucket_bound(i: int) -> u64 {
    1u64 << ((10 + i) as u64)
}

/// The first bucket from `i` on whose boundary is at least `size`, or the
/// overflow bucket when none is.
pub open spec fn bucket_from(size: u64, i: int) -> int
    decreases BUCKETS - 1 - i,
{
    if i < 0 || i >= BUCKETS - 1 {
        BUCKETS - 1
    } else if size <= bucket_bound(i) {
        i
    } else {
        bucket_from(size, i + 1)
    }
}

/// The bucket a result of weight `size` is counted in.
pub open spec fn bucket_index(size: u64) -> int {
    bucket_from(size, 0)
}

/// A count after one more observation. Saturates instead of wrapping, so a
/// count never decreases.
pub open spec fn bumped(c: u64) -> u64 {
    if c == u64::MAX { c } else { (c + 1) as u64 }
}

/// The bucket counts after observing one result of weight `size`.
pub open spec fn counts_after(counts: Seq<u64>, size: u64) -> Seq<u64> {
    counts.update(bucket_index(size), bumped(counts[bucket_index(size)]))
}

/// The running maximum after observing one result of weight `size`.
pub open spec fn max_after(m: u64, size: u64) -> u64 {
    if size > m { size } else { m }
}

/// Every bucket index the spec can produce names a real bucket.
pub proof fn lemma_bucket_from_range(size: u64, i: int)
    requires
        0 <= i <= BUCKETS - 1,
    ensures
        i <= bucket_from(size, i) <= BUCKETS - 1,
    decreases BUCKETS - 1 - i,
{
    if i < BUCKETS - 1 && size > bucket_bound(i) {
        lemma_bucket_from_range(size, i + 1);
    }
}

/// Observing never lowers any bucket count: each count either stays or goes
/// up by one.
pub proof fn lemma_counts_after_monotone(counts: Seq<u64>, size: u64)
    requires
        counts.len() == BUCKETS,
    ensures
        counts_after(counts, size).len() == counts.len(),
        forall|i: int| 0 <= i < counts.len()
            ==> counts_after(counts, size)[i] >= counts[i],
{
    lemma_bucket_from_range(size, 0);
}

/// Observing `x` and then `y` raises the maximum to `y` exactly when `y` is
/// larger than the maximum reached after `x`, and leaves it unchanged
/// otherwise.
pub proof fn lemma_max_after_two(m: u64, x: u64, y: u64)
    ensures
        y > max_after(m, x) ==> max_after(max_after(m, x), y) == y,
        y <= max_after(m, x) ==> max_after(max_after(m, x), y) == max_after(m, x),
{
}

/// Records the size of each successful query result. Process-wide in
/// intent: one value lives for the lifetime of the runner and every
/// successful query feeds it.
#[derive(Debug)]
pub struct ResultSizeMetrics {
    /// Bucket counts; bucket `i` counts results of weight in
    /// `(bucket_bound(i - 1), bucket_bound(i)]`, the first bucket counts
    /// everything up to its boundary and the last everything beyond.
    pub counts: Vec<u64>,
    /// The largest weight observed so far.
    pub max: u64,
}

impl ResultSizeMetrics {
    /// The histogram always has its full set of buckets.
    pub open spec fn wf(&self) -> bool {
        self.counts@.len() == BUCKETS
    }

    /// Creates the empty histogram: all buckets zero, no maximum yet.
    pub(crate) fn new() -> (r: ResultSizeMetrics)
        ensures
            r.wf(),
            r.max == 0,
            forall|i: int| 0 <= i < BUCKETS ==> r.counts@[i] == 0,
    {
        let mut counts: Vec<u64> = Vec::new();
        let mut i: usize = 0;
        while i < BUCKETS
            invariant
                i <= BUCKETS,
                counts@.len() == i,
                forall|j: int| 0 <= j < i ==> counts@[j] == 0,
            decreases BUCKETS - i,
        {
            counts.push(0);
            i += 1;
        }
        ResultSizeMetrics { counts, max: 0 }
    }

    /// Constructor for callers outside the runner; ordinary code gets its
    /// metrics from the runner itself.
    pub fn make() -> (r: ResultSizeMetrics)
        ensures
            r.wf(),
            r.max == 0,
            forall|i: int| 0 <= i < BUCKETS ==> r.counts@[i] == 0,
    {
        ResultSizeMetrics::new()
    }

    /// The bucket a result of weight `size` is counted in.
    pub fn bucket_for(size: u64) -> (i: usize)
        ensures
            i as int == bucket_index(size),
            i < BUCKETS,
    {
        proof {
            lemma_bucket_from_range(size, 0);
        }
        let mut i: usize = 0;
        while i < BUCKETS - 1
            invariant
                i <= BUCKETS - 1,
                bucket_from(size, 0) == bucket_from(size, i as int),
            decreases BUCKETS - 1 - i,
        {
            let bound: u64 = 1u64 << ((10 + i) as u64);
            assert(bound == bucket_bound(i as int));
            if size <= bound {
                return i;
            }
            i += 1;
        }
        i
    }

    /// Counts one successful result of weight `size`: its bucket's count
    /// goes up, every other bucket stays, and the running maximum rises to
    /// `size` exactly when `size` exceeds it. Never lowers anything.
    pub fn observe(&mut self, size: usize)
        requires
            old(self).wf(),
        ensures
            final(self).wf(),
            final(self).counts@ == counts_after(old(self).counts@, size as u64),
            final(self).max == max_after(old(self).max, size as u64),
            forall|i: int| 0 <= i < BUCKETS
                ==> final(self).counts@[i] >= old(self).counts@[i],
    {
        proof {
            lemma_counts_after_monotone(old(self).counts@, size as u64);
        }
        let w: u64 = size as u64;
        let idx: usize = Self::bucket_for(w);
        let c: u64 = self.counts[idx];
        let bumped_c: u64 = if c < u64::MAX { c + 1 } else { c };
        self.counts[idx] = bumped_c;
        if w > self.max {
            self.max = w;
        }
    }
}

} // verus!
