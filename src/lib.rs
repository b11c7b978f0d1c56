//! Brute-force search for a legacy transaction gas price whose signing hash
//! starts with a required number of zero bytes.
//!
//! The library holds the verified parts of the search: request validation,
//! candidate evaluation, the partition of the candidate space into batches,
//! the first-write-wins cancellation token, the scan of one batch, and the
//! assembly of the final result. Threads, timers and host bindings live
//! outside of it and drive these pieces.
pub mod address;
pub mod evaluator;
pub mod miner;
pub mod partition;
pub mod request;
pub mod token;
pub mod worker;
