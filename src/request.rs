//! Mining requests: the raw inputs checked and turned into a request that the
//! search can run, before any search work starts.
use vstd::prelude::*;
use crate::address::{AddressError, parse_h160, is_plain_address, is_refused_address, address_bytes_of};
use crate::evaluator::TransactionFields;

verus! {

/// Largest accepted batch size.
pub const MAX_BATCH_SIZE: u32 = 1_000_000;

/// Batch size used when the configuration names none.
pub const DEFAULT_BATCH_SIZE: u32 = 10_000;

/// Leading zero bytes asked of the signing hash when nothing else is asked.
pub const DEFAULT_ZERO_BYTES: usize = 2;

/// Options of a search; `None` asks for the default.
#[derive(Clone, Copy, Debug, PartialEq, Eq)]
pub struct MiningConfig {
    pub batch_size: Option<u32>,
    pub thread_count: Option<u32>,
}

/// Why a request was refused, or why a search ended without a winner.
#[derive(Clone, Copy, Debug, PartialEq, Eq)]
pub enum MiningError {
    NegativeNonce,
    NegativeGas,
    InvalidAddress(AddressError),
    ZeroBatchSize,
    BatchSizeTooLarge,
    ZeroThreadCount,
    /// The whole candidate range was searched and holds no winner.
    Exhausted,
}

/// A checked request: what the search runs on.
#[derive(Clone, Copy, Debug, PartialEq, Eq)]
pub struct MiningRequest {
    pub fields: TransactionFields,
    /// Leading zero bytes asked of the signing hash.
    pub zero_bytes: usize,
    /// Candidates `[range_start, range_end)` are searched.
    pub range_start: u64,
    pub range_end: u64,
    pub batch_size: u64,
    pub thread_count: usize,
    /// The thread count asked for, when it was reduced to the available
    /// parallelism: a warning, not an error.
    pub clamped_from: Option<u32>,
}

impl MiningRequest {
    pub open spec fn wf(self) -> bool {
        &&& self.range_start <= self.range_end
        &&& 0 < self.batch_size <= MAX_BATCH_SIZE
        &&& self.thread_count >= 1
    }

    /// The same request with the candidate range `[start, end)`.
    pub fn with_range(self, start: u64, end: u64) -> (r: Self)
        requires
            start <= end,
        ensures
            r == (MiningRequest { range_start: start, range_end: end, ..self }),
    {
        MiningRequest { range_start: start, range_end: end, ..self }
    }

    /// The same request asking for `zero_bytes` leading zero bytes.
    pub fn with_zero_bytes(self, zero_bytes: usize) -> (r: Self)
        ensures
            r == (MiningRequest { zero_bytes, ..self }),
    {
        MiningRequest { zero_bytes, ..self }
    }
}

/// The error that the configuration alone causes, if any, in the order in
/// which the options are checked.
pub open spec fn config_error(config: Option<MiningConfig>) -> Option<MiningError> {
    match config {
        None => None,
        Some(c) => if c.batch_size == Some(0u32) {
            Some(MiningError::ZeroBatchSize)
        } else if c.batch_size matches Some(b) && b > MAX_BATCH_SIZE {
            Some(MiningError::BatchSizeTooLarge)
        } else if c.thread_count == Some(0u32) {
            Some(MiningError::ZeroThreadCount)
        } else {
            None
        },
    }
}

pub open spec fn effective_batch_size(config: Option<MiningConfig>) -> u64 {
    match config {
        Some(c) => match c.batch_size {
            Some(b) => b as u64,
            None => DEFAULT_BATCH_SIZE as u64,
        },
        None => DEFAULT_BATCH_SIZE as u64,
    }
}

/// Threads asked for, clamped to `available`; all of `available` by default.
pub open spec fn effective_threads(config: Option<MiningConfig>, available: usize) -> usize {
    match config {
        Some(c) => match c.thread_count {
            Some(t) => if t as int > available { available } else { t as usize },
            None => available,
        },
        None => available,
    }
}

pub open spec fn clamp_warning(config: Option<MiningConfig>, available: usize) -> Option<u32> {
    match config {
        Some(c) => match c.thread_count {
            Some(t) => if t as int > available { Some(t) } else { None },
            None => None,
        },
        None => None,
    }
}

/// Checks the raw inputs of a search, in this order: nonce, gas limit, sender,
/// batch size, thread count. A thread count above `available` is reduced to
/// it and noted in `clamped_from`. The request searches every candidate
/// below `u64::MAX` for the default number of zero bytes.
pub fn validate_request(
    nonce: i64,
    gas: i64,
    from: &str,
    config: Option<MiningConfig>,
    available: usize,
) -> (r: Result<MiningRequest, MiningError>)
    requires
        available >= 1,
    ensures
        nonce < 0 ==> r == Err::<MiningRequest, MiningError>(MiningError::NegativeNonce),
        nonce >= 0 && gas < 0 ==> r == Err::<MiningRequest, MiningError>(MiningError::NegativeGas),
        r matches Err(MiningError::InvalidAddress(_)) ==> nonce >= 0 && gas >= 0 && !is_plain_address(from@),
        nonce >= 0 && gas >= 0 && is_refused_address(from@)
            ==> r matches Err(MiningError::InvalidAddress(_)),
        nonce >= 0 && gas >= 0 && is_plain_address(from@) ==> (r is Ok <==> config_error(config) is None),
        nonce >= 0 && gas >= 0 && !(r matches Err(MiningError::InvalidAddress(_))) && config_error(config) is Some
            ==> r == Err::<MiningRequest, MiningError>(config_error(config)->Some_0),
        r matches Ok(q) ==> {
            &&& q.wf()
            &&& q.fields.nonce == nonce
            &&& q.fields.gas_limit == gas
            &&& is_plain_address(from@) ==> address_bytes_of(from@, q.fields.sender@)
            &&& q.zero_bytes == DEFAULT_ZERO_BYTES
            &&& q.range_start == 0
            &&& q.range_end == u64::MAX
            &&& q.batch_size == effective_batch_size(config)
            &&& q.thread_count == effective_threads(config, available)
            &&& q.clamped_from == clamp_warning(config, available)
        },
{
    if nonce < 0 {
        return Err(MiningError::NegativeNonce);
    }
    if gas < 0 {
        return Err(MiningError::NegativeGas);
    }
    let sender = match parse_h160(from) {
        Ok(a) => a,
        Err(e) => {
            return Err(MiningError::InvalidAddress(e));
        },
    };
    let config = match config {
        Some(c) => c,
        None => MiningConfig { batch_size: None, thread_count: None },
    };
    let batch_size: u64 = match config.batch_size {
        Some(b) => {
            if b == 0 {
                return Err(MiningError::ZeroBatchSize);
            }
            if b > MAX_BATCH_SIZE {
                return Err(MiningError::BatchSizeTooLarge);
            }
            b as u64
        },
        None => DEFAULT_BATCH_SIZE as u64,
    };
    let (thread_count, clamped_from): (usize, Option<u32>) = match config.thread_count {
        Some(t) => {
            if t == 0 {
                return Err(MiningError::ZeroThreadCount);
            }
            if t as u64 > available as u64 {
                (available, Some(t))
            } else {
                (t as usize, None)
            }
        },
        None => (available, None),
    };
    Ok(MiningRequest {
        fields: TransactionFields { nonce: nonce as u64, gas_limit: gas as u64, sender },
        zero_bytes: DEFAULT_ZERO_BYTES,
        range_start: 0,
        range_end: u64::MAX,
        batch_size,
        thread_count,
        clamped_from,
    })
}

} // verus!
