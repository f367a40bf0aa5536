//! Integrity primitives for a minimal ledger: digests, Merkle aggregation,
//! tagged signatures, transactions, blocks and hash-linked chaining.

pub mod block;
pub mod bytes;
mod clock;
pub mod crypto;
pub mod ed25519;
pub mod encoding;
pub mod error;
pub mod hash;
pub mod merkle;
pub mod secp256k1;
pub mod store;
pub mod tx;

pub use hash::{blake3_hash, sha256};
