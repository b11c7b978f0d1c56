//! The hash evaluator: the signing hash of a transaction for one candidate
//! gas price, and the leading-zero-bytes target tested on it.
use vstd::prelude::*;

verus! {

/// Number of bytes of a transaction signing hash.
pub const HASH_BYTES: usize = 32;

/// The signing hash of the legacy unsigned transaction with these fields.
pub uninterp spec fn signing_hash(nonce: u64, gas_limit: u64, sender: Seq<u8>, gas_price: u64) -> Seq<u8>;

/// Relies on ethers' `TransactionRequest::sighash`: the Keccak-256 digest of the
/// transaction's unsigned encoding, which depends on the fields alone.
#[verifier::external_body]
fn sighash(nonce: u64, gas_limit: u64, sender: &[u8; 20], gas_price: u64) -> (r: [u8; 32])
    ensures
        r@ == signing_hash(nonce, gas_limit, sender@, gas_price),
{
    let tx = ethers::types::TransactionRequest {
        from: Some(ethers::types::Address::from(*sender)),
        nonce: Some(ethers::types::U256::from(nonce)),
        gas: Some(ethers::types::U256::from(gas_limit)),
        gas_price: Some(ethers::types::U256::from(gas_price)),
        ..Default::default()
    };
    tx.sighash().0
}

/// The fixed fields of the transaction whose gas price is searched for.
#[derive(Clone, Copy, Debug, PartialEq, Eq)]
pub struct TransactionFields {
    pub nonce: u64,
    pub gas_limit: u64,
    pub sender: [u8; 20],
}

/// `hash` starts with at least `zero_bytes` zero bytes.
pub open spec fn meets_target(hash: Seq<u8>, zero_bytes: nat) -> bool {
    &&& zero_bytes <= hash.len()
    &&& forall|i: int| 0 <= i < zero_bytes ==> hash[i] == 0u8
}

/// The signing hash of `fields` with gas price `candidate`.
pub open spec fn hash_of(fields: TransactionFields, candidate: u64) -> Seq<u8> {
    signing_hash(fields.nonce, fields.gas_limit, fields.sender@, candidate)
}

/// `candidate` is a winning gas price for `fields` under the target.
pub open spec fn satisfies(fields: TransactionFields, zero_bytes: nat, candidate: u64) -> bool {
    meets_target(hash_of(fields, candidate), zero_bytes)
}

/// One evaluated candidate: its gas price, its signing hash and the verdict.
#[derive(Clone, Copy, Debug, PartialEq, Eq)]
pub struct CandidateEvaluation {
    pub candidate: u64,
    pub hash: [u8; 32],
    pub satisfied: bool,
}

impl CandidateEvaluation {
    /// This record is the evaluation of `candidate` for `fields` under the target.
    pub open spec fn describes(self, fields: TransactionFields, zero_bytes: nat, candidate: u64) -> bool {
        &&& self.candidate == candidate
        &&& self.hash@ == hash_of(fields, candidate)
        &&& self.satisfied == satisfies(fields, zero_bytes, candidate)
    }
}

/// Tests whether `hash` starts with at least `zero_bytes` zero bytes.
pub fn has_leading_zero_bytes(hash: &[u8; 32], zero_bytes: usize) -> (r: bool)
    ensures
        r == meets_target(hash@, zero_bytes as nat),
{
    if zero_bytes > HASH_BYTES {
        return false;
    }
    let mut i: usize = 0;
    while i < zero_bytes
        invariant
            zero_bytes <= hash@.len(),
            i <= zero_bytes,
            forall|j: int| 0 <= j < i ==> hash@[j] == 0u8,
        decreases zero_bytes - i,
    {
        if hash[i] != 0 {
            return false;
        }
        i = i + 1;
    }
    true
}

/// Computes the signing hash for one candidate and tests it against the target.
pub fn evaluate(fields: &TransactionFields, zero_bytes: usize, candidate: u64) -> (r: CandidateEvaluation)
    ensures
        r.describes(*fields, zero_bytes as nat, candidate),
{
    let hash = sighash(fields.nonce, fields.gas_limit, &fields.sender, candidate);
    let satisfied = has_leading_zero_bytes(&hash, zero_bytes);
    CandidateEvaluation { candidate, hash, satisfied }
}

/// Evaluation is deterministic: two evaluations of the same candidate for the
/// same fields and target hold the same hash and the same verdict.
pub proof fn lemma_evaluation_deterministic(
    fields: TransactionFields,
    zero_bytes: nat,
    candidate: u64,
    first: CandidateEvaluation,
    second: CandidateEvaluation,
)
    requires
        first.describes(fields, zero_bytes, candidate),
        second.describes(fields, zero_bytes, candidate),
    ensures
        first == second,
{
    assert(first.hash =~= second.hash);
}

} // verus!
