//! Deterministic round-robin leader selection: a pure function of the
//! block height and the guard set's ordering, so every guard computes the
//! same leader without communication.

use vstd::prelude::*;

use crate::guards::GuardSet;

verus! {

/// The round-robin leader selection algorithm. It carries no state of its
/// own: the leader is recomputed from scratch on every accepted block.
pub struct RoundRobinAlgo {}

impl RoundRobinAlgo {
    /// A fresh selector.
    pub fn new() -> (r: Self) {
        RoundRobinAlgo {  }
    }

    /// The leader for the block at `height`: the guard at index
    /// `height mod N` in the registry's ordering. `None` only for an
    /// empty guard set.
    pub fn on_new_block(&self, height: u64, guards: &GuardSet) -> (r: Option<Vec<u8>>)
        ensures
            match r {
                Some(id) => guards@.len() > 0 && id@ == guards@[
                    (height as int) % (guards@.len() as int)
                ],
                None => guards@.len() == 0,
            },
    {
        guards.leader_for_height(height)
    }
}

} // verus!
