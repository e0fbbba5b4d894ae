//! A hash-linked ledger for a small peer-to-peer network: blocks sealed by
//! SHA-256, brute-force proof-of-work, a chain with append and
//! longest-valid-chain replacement, and the decisions a node takes for each
//! message it receives.

pub mod block;
pub mod chain;
pub mod hashing;
pub mod node;
pub mod protocol;
