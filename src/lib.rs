//! A single-node proof-of-work ledger: blocks bound to their predecessors by
//! SHA-256 digests, mined by a nonce search against a leading-zero target
//! whose size adapts to the rate at which blocks are produced.

pub mod encoding;
pub mod digest;
mod clock;
pub mod block;
pub mod chain;
pub mod laws;
