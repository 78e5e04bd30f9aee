//! A single "orbital" instance token of a larger collection.
//!
//! The instance stores two write-once slots (its index within the collection
//! and a reference to the parent collection contract), derives its rarity
//! tier and display symbol deterministically from the index via SHA-256,
//! and answers a small set of opcodes, delegating shared data queries to
//! the parent collection through read-only remote calls that the host
//! performs on its behalf.

pub mod engine;
pub mod hashing;
pub mod instance;
pub mod text;
pub mod types;
