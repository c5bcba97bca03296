//! The leader's full proposal record for a height, as relayed between
//! guards.

use vstd::prelude::*;

verus! {

/// A leader's proposal: the block it is for, the vanilla bundle payload,
/// the locked lower bound, buffered orders, and the leader's signature
/// over (ethereum_block | hash(vanilla_bundle) | hash(lower_bound)).
pub struct Proposal {
    pub ethereum_block: u64,
    pub vanilla_bundle: Vec<u8>,
    pub lower_bound: u128,
    pub order_buffer: Vec<Vec<u8>>,
    pub leader_signature: Vec<u8>,
}

} // verus!
