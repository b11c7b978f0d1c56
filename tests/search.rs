use gas_miner::address::AddressError;
use gas_miner::evaluator::{evaluate, has_leading_zero_bytes, TransactionFields};
use gas_miner::miner::GasMiner;
use gas_miner::partition::{Partitioner, SearchBatch};
use gas_miner::request::{validate_request, MiningConfig, MiningError, MiningRequest};
use gas_miner::token::CancellationToken;
use gas_miner::worker::{run_worker, scan_batch, search_range, ScanOutcome, WorkerExit};
use std::cell::{Cell, RefCell};

const SENDER: &str = "0x0000000000000000000000000000000000000001";

fn config(batch_size: Option<u32>, thread_count: Option<u32>) -> Option<MiningConfig> {
    Some(MiningConfig { batch_size, thread_count })
}

fn sample_fields() -> TransactionFields {
    let mut sender = [0u8; 20];
    sender[19] = 1;
    TransactionFields { nonce: 5, gas_limit: 21000, sender }
}

fn all_batches(start: u64, end: u64, size: u64) -> Vec<SearchBatch> {
    let mut p = Partitioner::new(start, end, size);
    let mut out = Vec::new();
    while let Some(b) = p.next_batch() {
        out.push(b);
    }
    out
}

#[test]
fn partition_covers_range_once() {
    for &(start, end, size) in &[(0u64, 10u64, 3u64), (0, 9, 3), (5, 6, 100), (7, 7, 4), (0, 1000, 1)] {
        let batches = all_batches(start, end, size);
        let mut next = start;
        for b in &batches {
            assert_eq!(b.start, next);
            assert!(b.end > b.start);
            assert!(b.end - b.start <= size);
            next = b.end;
        }
        assert_eq!(next, end);
    }
}

#[test]
fn partition_exact_batches() {
    let batches = all_batches(0, 10, 3);
    assert_eq!(
        batches,
        vec![
            SearchBatch { start: 0, end: 3 },
            SearchBatch { start: 3, end: 6 },
            SearchBatch { start: 6, end: 9 },
            SearchBatch { start: 9, end: 10 },
        ]
    );
}

#[test]
fn partition_single_batch_when_size_exceeds_range() {
    assert_eq!(all_batches(0, 50, 1_000_000), vec![SearchBatch { start: 0, end: 50 }]);
}

#[test]
fn partition_reaches_top_of_space() {
    let batches = all_batches(u64::MAX - 5, u64::MAX, 2);
    assert_eq!(batches.len(), 3);
    assert_eq!(batches[2], SearchBatch { start: u64::MAX - 1, end: u64::MAX });
}

#[test]
fn validation_rejects_negative_nonce() {
    assert_eq!(validate_request(-1, 21000, SENDER, None, 4), Err(MiningError::NegativeNonce));
}

#[test]
fn validation_rejects_negative_gas() {
    assert_eq!(validate_request(0, -1, SENDER, None, 4), Err(MiningError::NegativeGas));
}

#[test]
fn validation_rejects_zero_batch_size() {
    assert_eq!(validate_request(0, 1, SENDER, config(Some(0), None), 4), Err(MiningError::ZeroBatchSize));
}

#[test]
fn validation_rejects_oversized_batch() {
    assert_eq!(
        validate_request(0, 1, SENDER, config(Some(1_000_001), None), 4),
        Err(MiningError::BatchSizeTooLarge)
    );
    assert!(validate_request(0, 1, SENDER, config(Some(1_000_000), None), 4).is_ok());
}

#[test]
fn validation_rejects_zero_threads() {
    assert_eq!(validate_request(0, 1, SENDER, config(None, Some(0)), 4), Err(MiningError::ZeroThreadCount));
}

#[test]
fn validation_clamps_thread_count() {
    let q = validate_request(0, 1, SENDER, config(None, Some(9)), 4).unwrap();
    assert_eq!(q.thread_count, 4);
    assert_eq!(q.clamped_from, Some(9));
    let q = validate_request(0, 1, SENDER, config(None, Some(3)), 4).unwrap();
    assert_eq!(q.thread_count, 3);
    assert_eq!(q.clamped_from, None);
}

#[test]
fn validation_defaults() {
    let q = validate_request(5, 21000, SENDER, None, 6).unwrap();
    assert_eq!(q.fields, sample_fields());
    assert_eq!(q.batch_size, 10_000);
    assert_eq!(q.thread_count, 6);
    assert_eq!(q.range_start, 0);
    assert_eq!(q.range_end, u64::MAX);
    assert_eq!(q.zero_bytes, 2);
}

#[test]
fn validation_reads_address_digits() {
    let q = validate_request(0, 0, "ABcdef0000000000000000000000000000000010", None, 1).unwrap();
    assert_eq!(q.fields.sender[0], 0xab);
    assert_eq!(q.fields.sender[1], 0xcd);
    assert_eq!(q.fields.sender[2], 0xef);
    assert_eq!(q.fields.sender[19], 0x10);
}

#[test]
fn validation_rejects_bad_addresses() {
    assert_eq!(
        validate_request(0, 0, "0x1234", None, 1),
        Err(MiningError::InvalidAddress(AddressError::InvalidLength))
    );
    assert!(matches!(
        validate_request(0, 0, "0xzz00000000000000000000000000000000000001", None, 1),
        Err(MiningError::InvalidAddress(AddressError::InvalidCharacter('z', _)))
    ));
}

#[test]
fn validation_rejects_long_malformed_addresses() {
    assert_eq!(
        validate_request(0, 0, "0x00000000000000000000000000000000000000012", None, 1),
        Err(MiningError::InvalidAddress(AddressError::InvalidLength))
    );
    assert_eq!(
        validate_request(0, 0, "0x0000000000000000000000000000000000000001 2", None, 1),
        Err(MiningError::InvalidAddress(AddressError::InvalidLength))
    );
    assert!(matches!(
        validate_request(0, 0, "0x000000000000000000000000000000000000000g", None, 1),
        Err(MiningError::InvalidAddress(AddressError::InvalidCharacter('g', 39)))
    ));
}

#[test]
fn validation_checks_nonce_before_config() {
    assert_eq!(
        validate_request(-1, -1, "bad", config(Some(0), Some(0)), 1),
        Err(MiningError::NegativeNonce)
    );
    assert_eq!(
        validate_request(0, 0, SENDER, config(Some(0), Some(0)), 1),
        Err(MiningError::ZeroBatchSize)
    );
}

#[test]
fn leading_zero_bytes() {
    let mut h = [0u8; 32];
    assert!(has_leading_zero_bytes(&h, 32));
    assert!(!has_leading_zero_bytes(&h, 33));
    h[2] = 7;
    assert!(has_leading_zero_bytes(&h, 2));
    assert!(!has_leading_zero_bytes(&h, 3));
    assert!(has_leading_zero_bytes(&h, 0));
}

#[test]
fn evaluation_is_deterministic() {
    let f = sample_fields();
    let a = evaluate(&f, 1, 42);
    let b = evaluate(&f, 1, 42);
    assert_eq!(a, b);
    assert_eq!(a.satisfied, a.hash[0] == 0);
}

#[test]
fn evaluation_depends_on_candidate() {
    let f = sample_fields();
    assert_ne!(evaluate(&f, 1, 1).hash, evaluate(&f, 1, 2).hash);
    assert_ne!(evaluate(&f, 1, 1).hash, [0u8; 32]);
}

#[test]
fn token_first_write_wins() {
    let mut t = CancellationToken::new();
    assert!(!t.is_set());
    assert_eq!(t.winner(), None);
    assert!(t.try_set(17));
    assert!(!t.try_set(3));
    assert!(t.is_set());
    assert_eq!(t.winner(), Some(17));
}

#[test]
fn scan_stops_when_cancelled() {
    let f = sample_fields();
    let r = scan_batch(&f, 32, SearchBatch { start: 10, end: 20 }, &|| true);
    assert_eq!(r, ScanOutcome::Cancelled(10));
    let r = scan_batch(&f, 32, SearchBatch { start: 10, end: 20 }, &|| false);
    assert_eq!(r, ScanOutcome::Exhausted);
}

#[test]
fn worker_stop_reasons() {
    let f = sample_fields();
    assert_eq!(run_worker(&f, 1, &|| None, &|| false).0, WorkerExit::NoBatchLeft);
    assert_eq!(run_worker(&f, 1, &|| Some(SearchBatch { start: 0, end: 10 }), &|| true).0, WorkerExit::Cancelled);
    let parts = RefCell::new(Partitioner::new(0, 300, 100));
    let claim = || parts.borrow_mut().next_batch();
    assert_eq!(run_worker(&f, 32, &claim, &|| false).0, WorkerExit::NoBatchLeft);
    assert_eq!(parts.borrow_mut().next_batch(), None);
}

#[test]
fn single_worker_finds_smallest_winner() {
    let f = sample_fields();
    let w = search_range(&f, 1, 0, 100_000, 1000).expect("a winner below 100000");
    assert!(evaluate(&f, 1, w).satisfied);
    for c in 0..w {
        assert!(!evaluate(&f, 1, c).satisfied);
    }
}

#[test]
fn exhausted_range_reports_no_winner() {
    let f = sample_fields();
    assert_eq!(search_range(&f, 32, 0, 500, 64), None);
    assert_eq!(search_range(&f, 1, 9, 9, 64), None);
    let miner = GasMiner::new();
    assert!(matches!(miner.conclude(None, 10), Err(MiningError::Exhausted)));
}

#[test]
fn workers_sharing_a_partitioner_agree_with_single_search() {
    let f = sample_fields();
    let parts = RefCell::new(Partitioner::new(0, 100_000, 1000));
    let token = Cell::new(CancellationToken::new());
    let claim = || parts.borrow_mut().next_batch();
    let cancelled = || token.get().is_set();
    for _ in 0..4 {
        if let (WorkerExit::Found(c), _) = run_worker(&f, 1, &claim, &cancelled) {
            let mut t = token.get();
            t.try_set(c);
            token.set(t);
        }
    }
    let winner = token.get().winner().expect("a winner");
    assert!(evaluate(&f, 1, winner).satisfied);
    assert_eq!(Some(winner), search_range(&f, 1, 0, 100_000, 1000));
}

#[test]
fn end_to_end_scenario() {
    let miner = GasMiner::new();
    let request: MiningRequest = miner
        .prepare_request(5, 21000, SENDER, config(Some(1000), Some(4)))
        .unwrap()
        .with_zero_bytes(1);
    assert!(request.thread_count >= 1 && request.thread_count <= 4);
    let winner = miner.search(&request).expect("a winner");
    let result = miner.conclude(Some(winner), 1500).unwrap();
    assert_eq!(result.gas_price, winner.to_string());
    assert!(result.gas_price.chars().all(|c| c.is_ascii_digit()));
    assert_eq!(result.duration_nanos, 1500);
    assert!(evaluate(&request.fields, 1, winner).satisfied);
}

#[test]
fn result_price_is_decimal() {
    let miner = GasMiner::new();
    assert_eq!(miner.conclude(Some(0), 0).unwrap().gas_price, "0");
    assert_eq!(miner.conclude(Some(1234567890), 0).unwrap().gas_price, "1234567890");
    assert_eq!(miner.conclude(Some(u64::MAX), 0).unwrap().gas_price, "18446744073709551615");
}

#[test]
fn cpu_count_is_positive() {
    assert!(GasMiner::new().get_cpu_count() >= 1);
}

#[test]
fn restricted_request_range() {
    let miner = GasMiner::new();
    let request = miner.prepare_request(5, 21000, SENDER, None).unwrap().with_range(3, 3);
    assert_eq!(miner.search(&request), None);
}

