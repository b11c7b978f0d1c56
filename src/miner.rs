//! The miner: host-facing entry points that tie validation, the search and
//! the final result together.
use vstd::prelude::*;
use crate::request::{MiningConfig, MiningError, MiningRequest, validate_request, config_error, effective_batch_size, DEFAULT_ZERO_BYTES};
use crate::address::{is_plain_address, is_refused_address, address_bytes_of};
use crate::worker::{search_range, is_search_outcome};

verus! {

pub open spec fn digit_char(d: nat) -> char {
    if d == 0 { '0' } else if d == 1 { '1' } else if d == 2 { '2' } else if d == 3 { '3' }
    else if d == 4 { '4' } else if d == 5 { '5' } else if d == 6 { '6' } else if d == 7 { '7' }
    else if d == 8 { '8' } else { '9' }
}

/// The decimal digits of `n`, without leading zeros.
pub open spec fn decimal_text(n: nat) -> Seq<char>
    decreases n,
{
    if n < 10 {
        seq![digit_char(n)]
    } else {
        decimal_text(n / 10).push(digit_char(n % 10))
    }
}

/// Relies on the `Display` impl of ethers' `U256`: decimal digits without
/// leading zeros, `0` for zero.
#[verifier::external_body]
fn u256_decimal(n: u64) -> (r: String)
    ensures
        r@ == decimal_text(n as nat),
{
    ethers::types::U256::from(n).to_string()
}

/// Relies on `num_cpus::get`: the number of CPUs this process may use,
/// documented to be at least 1.
#[verifier::external_body]
fn available_cpus() -> (r: usize)
    ensures
        r >= 1,
{
    num_cpus::get()
}

/// The outcome of a successful search.
#[derive(Debug)]
pub struct MiningResult {
    /// The winning gas price, in decimal.
    pub gas_price: String,
    /// Time spent searching, in nanoseconds.
    pub duration_nanos: u64,
}

/// Entry point of the miner for a host runtime.
#[derive(Clone, Copy, Debug, PartialEq, Eq)]
pub struct GasMiner {}

impl GasMiner {
    pub fn new() -> (r: Self)
        ensures
            r == (GasMiner {}),
    {
        GasMiner {}
    }

    /// The number of CPUs available to the search, at least 1.
    pub fn get_cpu_count(&self) -> (r: u32)
        ensures
            r >= 1,
    {
        let n = available_cpus();
        if n > u32::MAX as usize {
            u32::MAX
        } else {
            n as u32
        }
    }

    /// Checks a request against the CPUs available here; see
    /// `validate_request`, which this calls with that number.
    pub fn prepare_request(
        &self,
        nonce: i64,
        gas: i64,
        from: &str,
        config: Option<MiningConfig>,
    ) -> (r: Result<MiningRequest, MiningError>)
        ensures
            nonce < 0 ==> r == Err::<MiningRequest, MiningError>(MiningError::NegativeNonce),
            nonce >= 0 && gas < 0 ==> r == Err::<MiningRequest, MiningError>(MiningError::NegativeGas),
            r matches Err(MiningError::InvalidAddress(_)) ==> nonce >= 0 && gas >= 0 && !is_plain_address(from@),
            nonce >= 0 && gas >= 0 && is_refused_address(from@)
            ==> r matches Err(MiningError::InvalidAddress(_)),
        nonce >= 0 && gas >= 0 && is_plain_address(from@) ==> (r is Ok <==> config_error(config) is None),
            nonce >= 0 && gas >= 0 && !(r matches Err(MiningError::InvalidAddress(_))) && config_error(config) is Some
                ==> r == Err::<MiningRequest, MiningError>(config_error(config)->Some_0),
            r matches Ok(q) ==> {
                &&& q.wf()
                &&& q.fields.nonce == nonce
                &&& q.fields.gas_limit == gas
                &&& is_plain_address(from@) ==> address_bytes_of(from@, q.fields.sender@)
                &&& q.zero_bytes == DEFAULT_ZERO_BYTES
                &&& q.range_start == 0
                &&& q.range_end == u64::MAX
                &&& q.batch_size == effective_batch_size(config)
                &&& (config is Some && config->Some_0.thread_count is Some && q.clamped_from is None)
                    ==> q.thread_count == config->Some_0.thread_count->Some_0
                &&& q.clamped_from is Some ==> config is Some
                    && config->Some_0.thread_count == q.clamped_from
                    && q.thread_count < q.clamped_from->Some_0
            },
    {
        let available = available_cpus();
        validate_request(nonce, gas, from, config, available)
    }

    /// Searches the request's range with a single worker: the smallest winner
    /// of the range, or `None` when it holds none.
    pub fn search(&self, request: &MiningRequest) -> (r: Option<u64>)
        requires
            request.wf(),
        ensures
            is_search_outcome(request.fields, request.zero_bytes as nat, request.range_start as int,
                request.range_end as int, r),
    {
        search_range(&request.fields, request.zero_bytes, request.range_start, request.range_end,
            request.batch_size)
    }

    /// The result of a finished search: the winner read from the token, with
    /// the time spent, or `Exhausted` when no worker found one.
    pub fn conclude(&self, winner: Option<u64>, duration_nanos: u64) -> (r: Result<MiningResult, MiningError>)
        ensures
            winner is None <==> r == Err::<MiningResult, MiningError>(MiningError::Exhausted),
            winner matches Some(c) ==> r matches Ok(m) && m.gas_price@ == decimal_text(c as nat)
                && m.duration_nanos == duration_nanos,
    {
        match winner {
            Some(c) => Ok(MiningResult { gas_price: u256_decimal(c), duration_nanos }),
            None => Err(MiningError::Exhausted),
        }
    }
}

} // verus!
