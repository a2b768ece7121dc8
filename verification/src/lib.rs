//! Quorum-store proof aggregation: collects per-validator signatures over a
//! batch digest and assembles them into a proof of store once the signers'
//! combined voting power reaches the quorum threshold, expiring digests that
//! do not reach quorum within a configured deadline. Also holds the wire-level
//! batch/fragment transport types and the on-chain package metadata records.

pub mod code;
pub mod types;
pub mod validator_verifier;
pub mod proof_of_store;
pub mod utils;
pub mod proof_builder;
