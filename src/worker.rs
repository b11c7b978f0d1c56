//! The scan of a batch, the worker loop that claims and scans batches, and a
//! single-worker search of a whole range.
use vstd::prelude::*;
use crate::evaluator::{TransactionFields, satisfies, evaluate};
use crate::partition::{SearchBatch, Partitioner, batch_lo, batch_hi, batch_holds, is_batch_index, lemma_partition_coverage};

verus! {

/// No candidate of `[lo, hi)` is a winner.
pub open spec fn no_winner_in(fields: TransactionFields, zero_bytes: nat, lo: int, hi: int) -> bool {
    forall|c: u64| lo <= c < hi ==> !#[trigger] satisfies(fields, zero_bytes, c)
}

/// `r` is what a search of `[start, end)` owes: the smallest winner of the
/// range, or `None` when the range holds none.
pub open spec fn is_search_outcome(fields: TransactionFields, zero_bytes: nat, start: int, end: int, r: Option<u64>) -> bool {
    match r {
        Some(c) => start <= c < end && satisfies(fields, zero_bytes, c) && no_winner_in(fields, zero_bytes, start, c as int),
        None => no_winner_in(fields, zero_bytes, start, end),
    }
}

/// A range that holds a winner ends in exactly one winner, the same on every
/// run; a range that holds none ends in no winner.
pub proof fn lemma_search_outcome_unique(
    fields: TransactionFields,
    zero_bytes: nat,
    start: int,
    end: int,
    first: Option<u64>,
    second: Option<u64>,
)
    requires
        is_search_outcome(fields, zero_bytes, start, end, first),
        is_search_outcome(fields, zero_bytes, start, end, second),
    ensures
        first == second,
        (exists|c: u64| start <= c < end && #[trigger] satisfies(fields, zero_bytes, c)) <==> first is Some,
{
    if let Some(a) = first {
        if let Some(b) = second {
            if a < b {
                assert(!satisfies(fields, zero_bytes, a));
            } else if b < a {
                assert(!satisfies(fields, zero_bytes, b));
            }
        } else {
            assert(!satisfies(fields, zero_bytes, a));
        }
    } else if let Some(b) = second {
        assert(!satisfies(fields, zero_bytes, b));
    }
}

/// How the scan of one batch ended.
#[derive(Clone, Copy, Debug, PartialEq, Eq)]
pub enum ScanOutcome {
    /// The first winning candidate of the batch.
    Found(u64),
    /// The token was seen set before this candidate was evaluated.
    Cancelled(u64),
    /// No candidate of the batch is a winner.
    Exhausted,
}

/// Scans `batch` in increasing order, asking `cancelled` before each candidate,
/// and stops at the first winner.
pub fn scan_batch<F: Fn() -> bool>(
    fields: &TransactionFields,
    zero_bytes: usize,
    batch: SearchBatch,
    cancelled: &F,
) -> (r: ScanOutcome)
    requires
        cancelled.requires(()),
    ensures
        match r {
            ScanOutcome::Found(c) => {
                &&& batch.start <= c < batch.end
                &&& satisfies(*fields, zero_bytes as nat, c)
                &&& no_winner_in(*fields, zero_bytes as nat, batch.start as int, c as int)
            },
            ScanOutcome::Cancelled(c) => {
                &&& batch.start <= c < batch.end
                &&& no_winner_in(*fields, zero_bytes as nat, batch.start as int, c as int)
                &&& cancelled.ensures((), true)
            },
            ScanOutcome::Exhausted => no_winner_in(*fields, zero_bytes as nat, batch.start as int, batch.end as int),
        },
{
    let mut c: u64 = batch.start;
    while c < batch.end
        invariant
            batch.start <= c,
            c <= batch.end || c == batch.start,
            no_winner_in(*fields, zero_bytes as nat, batch.start as int, c as int),
            cancelled.requires(()),
        decreases batch.end - c,
    {
        if cancelled() {
            return ScanOutcome::Cancelled(c);
        }
        let e = evaluate(fields, zero_bytes, c);
        if e.satisfied {
            return ScanOutcome::Found(c);
        }
        c = c + 1;
    }
    ScanOutcome::Exhausted
}

/// Why a worker stopped.
#[derive(Clone, Copy, Debug, PartialEq, Eq)]
pub enum WorkerExit {
    /// It found this winner.
    Found(u64),
    /// It saw the token set.
    Cancelled,
    /// It asked for a batch and none was left.
    NoBatchLeft,
    /// It scanned `u64::MAX` batches without a winner. A space of `u64`
    /// candidates never holds that many, so a worker fed by one partitioner
    /// never stops this way.
    RoundLimit,
}

/// One worker: until the token is set or no batch is left, claims a batch with
/// `claim` and scans it, asking `cancelled` before each claim and each
/// candidate. Beside the exit it returns the batches it claimed, in order:
/// each was handed out by `claim`, and each but the last one scanned holds
/// no winner.
pub fn run_worker<C: Fn() -> Option<SearchBatch>, K: Fn() -> bool>(
    fields: &TransactionFields,
    zero_bytes: usize,
    claim: &C,
    cancelled: &K,
) -> (r: (WorkerExit, Ghost<Seq<SearchBatch>>))
    requires
        claim.requires(()),
        cancelled.requires(()),
    ensures
        forall|i: int| 0 <= i < r.1@.len() ==> claim.ensures((), Some(#[trigger] r.1@[i])),
        forall|i: int| 0 <= i < r.1@.len() - 1 ==>
            no_winner_in(*fields, zero_bytes as nat, (#[trigger] r.1@[i]).start as int, r.1@[i].end as int),
        r.0 is NoBatchLeft || r.0 is RoundLimit ==> forall|i: int| 0 <= i < r.1@.len() ==>
            no_winner_in(*fields, zero_bytes as nat, (#[trigger] r.1@[i]).start as int, r.1@[i].end as int),
        r.0 is RoundLimit ==> r.1@.len() == u64::MAX,
        r.0 matches WorkerExit::Found(c) ==> {
            &&& satisfies(*fields, zero_bytes as nat, c)
            &&& r.1@.len() > 0
            &&& r.1@.last().start <= c < r.1@.last().end
            &&& no_winner_in(*fields, zero_bytes as nat, r.1@.last().start as int, c as int)
        },
        r.0 is Cancelled ==> cancelled.ensures((), true),
        r.0 is NoBatchLeft ==> claim.ensures((), None),
{
    let ghost mut claimed: Seq<SearchBatch> = Seq::empty();
    let mut rounds: u64 = 0;
    while rounds < u64::MAX
        invariant
            claim.requires(()),
            cancelled.requires(()),
            claimed.len() == rounds,
            forall|i: int| 0 <= i < claimed.len() ==> claim.ensures((), Some(#[trigger] claimed[i])),
            forall|i: int| 0 <= i < claimed.len() ==>
                no_winner_in(*fields, zero_bytes as nat, (#[trigger] claimed[i]).start as int, claimed[i].end as int),
        decreases u64::MAX - rounds,
    {
        if cancelled() {
            return (WorkerExit::Cancelled, Ghost(claimed));
        }
        match claim() {
            None => {
                return (WorkerExit::NoBatchLeft, Ghost(claimed));
            },
            Some(batch) => {
                proof {
                    claimed = claimed.push(batch);
                }
                match scan_batch(fields, zero_bytes, batch, cancelled) {
                    ScanOutcome::Found(c) => {
                        return (WorkerExit::Found(c), Ghost(claimed));
                    },
                    ScanOutcome::Cancelled(_) => {
                        return (WorkerExit::Cancelled, Ghost(claimed));
                    },
                    ScanOutcome::Exhausted => {},
                }
            },
        }
        rounds = rounds + 1;
    }
    (WorkerExit::RoundLimit, Ghost(claimed))
}

/// Scanning every batch of the partition without a winner leaves none in the
/// range: when the batches that workers scanned to the end include each batch
/// of the partition of `[start, end)`, no candidate of the range is a winner.
pub proof fn lemma_scanned_partition_has_no_winner(
    fields: TransactionFields,
    zero_bytes: nat,
    start: u64,
    end: u64,
    size: u64,
    scanned: Seq<SearchBatch>,
)
    requires
        start <= end,
        size > 0,
        forall|k: int| is_batch_index(start as int, end as int, size as int, k) ==> exists|i: int|
            0 <= i < scanned.len() && #[trigger] scanned[i].start == batch_lo(start as int, size as int, k)
                && scanned[i].end == batch_hi(start as int, end as int, size as int, k),
        forall|i: int| 0 <= i < scanned.len() ==>
            no_winner_in(fields, zero_bytes, (#[trigger] scanned[i]).start as int, scanned[i].end as int),
    ensures
        no_winner_in(fields, zero_bytes, start as int, end as int),
{
    assert forall|c: u64| start <= c < end implies !#[trigger] satisfies(fields, zero_bytes, c) by {
        lemma_partition_coverage(start as int, end as int, size as int, c as int);
        let k = choose|k: int| is_batch_index(start as int, end as int, size as int, k)
            && #[trigger] batch_holds(start as int, end as int, size as int, k, c as int);
        let i = choose|i: int| 0 <= i < scanned.len() && #[trigger] scanned[i].start == batch_lo(start as int, size as int, k)
            && scanned[i].end == batch_hi(start as int, end as int, size as int, k);
        assert(no_winner_in(fields, zero_bytes, scanned[i].start as int, scanned[i].end as int));
    }
}

/// Searches `[start, end)` batch by batch with a single worker. Returns the
/// smallest winner of the range, or `None` when the range holds none.
pub fn search_range(
    fields: &TransactionFields,
    zero_bytes: usize,
    start: u64,
    end: u64,
    batch_size: u64,
) -> (r: Option<u64>)
    requires
        start <= end,
        batch_size > 0,
    ensures
        is_search_outcome(*fields, zero_bytes as nat, start as int, end as int, r),
{
    let mut parts = Partitioner::new(start, end, batch_size);
    let never = || -> (b: bool)
        ensures
            !b,
        { false };
    assert(never.requires(()));
    assert(forall|b: bool| never.ensures((), b) ==> !b);
    loop
        invariant
            batch_size > 0,
            parts.range_start() == start,
            parts.range_end() == end,
            parts.batch_size() == batch_size,
            never.requires(()),
            forall|b: bool| never.ensures((), b) ==> !b,
            no_winner_in(*fields, zero_bytes as nat, start as int,
                if parts.is_done() { end as int } else { batch_lo(start as int, batch_size as int, parts.issued()) }),
        decreases end - (if parts.is_done() { end as int } else { batch_lo(start as int, batch_size as int, parts.issued()) }),
    {
        let ghost k = parts.issued();
        match parts.next_batch() {
            None => {
                return None;
            },
            Some(batch) => {
                proof {
                    let z = batch_size as int;
                    assert((k + 1) * z == k * z + z) by (nonlinear_arith);
                }
                match scan_batch(fields, zero_bytes, batch, &never) {
                    ScanOutcome::Found(c) => {
                        return Some(c);
                    },
                    ScanOutcome::Cancelled(_) => {
                        return None;
                    },
                    ScanOutcome::Exhausted => {},
                }
            },
        }
    }
}

} // verus!
