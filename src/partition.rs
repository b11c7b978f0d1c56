//! The search-space partitioner: the candidate range `[start, end)` cut into
//! contiguous batches of a fixed size, handed out in increasing order.
use vstd::prelude::*;

verus! {

/// A contiguous slice `[start, end)` of the candidate space.
#[derive(Clone, Copy, Debug, PartialEq, Eq)]
pub struct SearchBatch {
    pub start: u64,
    pub end: u64,
}

/// Lower bound of batch `k` of `[start, end)` cut in batches of `size`.
pub open spec fn batch_lo(start: int, size: int, k: int) -> int {
    start + k * size
}

/// Upper bound (exclusive) of batch `k`: the last batch may be shorter.
pub open spec fn batch_hi(start: int, end: int, size: int, k: int) -> int {
    if start + (k + 1) * size <= end {
        start + (k + 1) * size
    } else {
        end
    }
}

/// `k` numbers a batch of the partition: batches are numbered from 0 and
/// each one starts inside the range.
pub open spec fn is_batch_index(start: int, end: int, size: int, k: int) -> bool {
    0 <= k && batch_lo(start, size, k) < end
}

/// Batch `k` holds `candidate`.
pub open spec fn batch_holds(start: int, end: int, size: int, k: int, candidate: int) -> bool {
    batch_lo(start, size, k) <= candidate < batch_hi(start, end, size, k)
}

/// The partition covers the range exactly once: a candidate lies in some batch
/// if and only if it lies in `[start, end)`, no two batches share a candidate,
/// and each batch ends where the next one starts.
pub proof fn lemma_partition_coverage(start: int, end: int, size: int, candidate: int)
    requires
        0 <= start <= end,
        size > 0,
    ensures
        (start <= candidate < end) <==> (exists|k: int|
            is_batch_index(start, end, size, k) && #[trigger] batch_holds(start, end, size, k, candidate)),
        forall|k1: int, k2: int|
            is_batch_index(start, end, size, k1) && is_batch_index(start, end, size, k2)
                && #[trigger] batch_holds(start, end, size, k1, candidate)
                && #[trigger] batch_holds(start, end, size, k2, candidate) ==> k1 == k2,
        forall|k: int|
            is_batch_index(start, end, size, k) && is_batch_index(start, end, size, k + 1)
                ==> #[trigger] batch_hi(start, end, size, k) == batch_lo(start, size, k + 1),
{
    if start <= candidate < end {
        let k = (candidate - start) / size;
        assert(0 <= k) by (nonlinear_arith)
            requires candidate - start >= 0, size > 0, k == (candidate - start) / size;
        assert(k * size <= candidate - start < (k + 1) * size) by (nonlinear_arith)
            requires candidate - start >= 0, size > 0, k == (candidate - start) / size;
        assert(is_batch_index(start, end, size, k));
        assert(batch_holds(start, end, size, k, candidate));
    }
    assert forall|k1: int, k2: int|
        is_batch_index(start, end, size, k1) && is_batch_index(start, end, size, k2)
            && #[trigger] batch_holds(start, end, size, k1, candidate)
            && #[trigger] batch_holds(start, end, size, k2, candidate) implies k1 == k2 by {
        if k1 < k2 {
            assert((k1 + 1) * size <= k2 * size) by (nonlinear_arith)
                requires k1 < k2, size > 0;
        } else if k2 < k1 {
            assert((k2 + 1) * size <= k1 * size) by (nonlinear_arith)
                requires k2 < k1, size > 0;
        }
    }
    assert forall|k: int|
        is_batch_index(start, end, size, k) && is_batch_index(start, end, size, k + 1)
            implies #[trigger] batch_hi(start, end, size, k) == batch_lo(start, size, k + 1) by {
        assert(start + (k + 1) * size < end);
    }
}

/// Hands out the batches of `[start, end)` one by one, in increasing order.
pub struct Partitioner {
    start: u64,
    end: u64,
    size: u64,
    next: u64,
    issued: u64,
}

impl Partitioner {
    #[verifier::type_invariant]
    spec fn wf(&self) -> bool {
        &&& self.size > 0
        &&& self.start <= self.next <= self.end
        &&& self.next < self.end ==> self.next == batch_lo(self.start as int, self.size as int, self.issued as int)
        &&& self.next == self.end ==> !is_batch_index(self.start as int, self.end as int, self.size as int, self.issued as int)
        &&& forall|k: int| 0 <= k < self.issued ==> is_batch_index(self.start as int, self.end as int, self.size as int, k)
    }

    pub closed spec fn range_start(&self) -> int {
        self.start as int
    }

    pub closed spec fn range_end(&self) -> int {
        self.end as int
    }

    pub closed spec fn batch_size(&self) -> int {
        self.size as int
    }

    /// Number of batches handed out so far.
    pub closed spec fn issued(&self) -> int {
        self.issued as int
    }

    /// Every batch has been handed out.
    pub open spec fn is_done(&self) -> bool {
        !is_batch_index(self.range_start(), self.range_end(), self.batch_size(), self.issued())
    }

    /// A partitioner of `[start, end)` in batches of `size` candidates.
    pub fn new(start: u64, end: u64, size: u64) -> (r: Self)
        requires
            start <= end,
            size > 0,
        ensures
            r.range_start() == start,
            r.range_end() == end,
            r.batch_size() == size,
            r.issued() == 0,
    {
        Partitioner { start, end, size, next: start, issued: 0 }
    }

    /// Claims the next batch: batch number `issued()` of the partition, or
    /// `None` once every batch has been handed out.
    pub fn next_batch(&mut self) -> (r: Option<SearchBatch>)
        ensures
            final(self).range_start() == old(self).range_start(),
            final(self).range_end() == old(self).range_end(),
            final(self).batch_size() == old(self).batch_size(),
            old(self).is_done() ==> r is None && final(self).issued() == old(self).issued(),
            !old(self).is_done() ==> {
                &&& final(self).issued() == old(self).issued() + 1
                &&& r matches Some(b) && b.start == batch_lo(old(self).range_start(), old(self).batch_size(), old(self).issued())
                &&& r matches Some(b) && b.end == batch_hi(old(self).range_start(), old(self).range_end(), old(self).batch_size(), old(self).issued())
            },
    {
        proof {
            use_type_invariant(&*self);
        }
        if self.next >= self.end {
            return None;
        }
        let lo = self.next;
        let hi = if self.end - lo <= self.size { self.end } else { lo + self.size };
        proof {
            let s = self.start as int;
            let z = self.size as int;
            let k = self.issued as int;
            assert((k + 1) * z == k * z + z) by (nonlinear_arith);
            assert(k * z <= self.end - s) by (nonlinear_arith)
                requires lo == s + k * z, lo < self.end;
            assert(k < u64::MAX) by (nonlinear_arith)
                requires s + k * z < self.end, self.end <= u64::MAX, z >= 1, s >= 0, k >= 0;
        }
        let issued = self.issued + 1;
        proof {
            let s = self.start as int;
            let z = self.size as int;
            let k = issued as int;
            assert(k * z == (k - 1) * z + z) by (nonlinear_arith);
        }
        *self = Partitioner { start: self.start, end: self.end, size: self.size, next: hi, issued };
        Some(SearchBatch { start: lo, end: hi })
    }
}

} // verus!
