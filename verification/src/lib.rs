//! Consensus core for a guard network: a fixed set of validators converges,
//! once per block height, on a single finalized execution bundle.
//!
//! The crate covers round/height progression, deterministic round-robin
//! leader rotation, bundle vote collection with 2/3-majority finalization,
//! and byzantine-evidence tracking. Transport, matching and simulation are
//! external collaborators: they hand the core plain values and take plain
//! values back.

pub mod assoc;
pub mod book;
pub mod bundle;
pub mod bytes;
pub mod consensus_core;
pub mod crypto;
pub mod evidence;
pub mod guards;
pub mod harness;
pub mod pool;
pub mod proposal;
pub mod round;
pub mod round_robin;
pub mod sim;
pub mod signer;
pub mod types;
pub mod validation;
