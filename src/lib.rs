//! Core logic of a cross-chain atomic swap protocol.
//!
//! Two parties exchange assets on different ledgers. Each leg of a swap is an
//! escrow locked by a hashlock (the digest of a secret) and a set of timelocks.
//! Orders that feed the escrows are guarded by an invalidation engine, and
//! orders that may be filled in parts reveal one secret per part, proven
//! against a Merkle root.
//!
//! Everything that touches the host ledger (the clock, the caller's identity,
//! token transfers) is kept out of this crate: the functions here take those
//! facts as arguments and return the transfers to perform.
use vstd::prelude::*;

pub mod bytes;
pub mod hashing;
pub mod timelocks;
pub mod escrow;
pub mod store;
pub mod merkle;
pub mod orders;
pub mod invalidator;
pub mod protocol;
pub mod factory;
pub mod fee;
