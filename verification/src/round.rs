//! Per-height round state: current phase, current leader, and whether
//! this node is the leader. Height advances strictly by one; the phase
//! cycles pre-propose, proposed, committed, then awaits the next block.

use vstd::prelude::*;

verus! {

/// Phase of the current round.
#[derive(PartialEq, Eq, Structural, Clone, Copy, Debug)]
pub enum RoundPhase {
    /// Waiting for the next finalized chain block.
    AwaitingBlock,
    /// Guards lock and broadcast their lower bounds.
    PrePropose,
    /// The leader's proposal for this round is out.
    Proposed,
    /// A quorum committed to the proposal.
    Committed,
}

/// Mathematical image of a [`RoundState`].
#[verifier::ext_equal]
pub struct RoundStateView {
    pub height: u64,
    pub leader: Seq<u8>,
    pub is_leader: bool,
    pub phase: RoundPhase,
}

/// Tracks the current height, the leader chosen for it, and the round
/// phase.
pub struct RoundState {
    height: u64,
    leader: Vec<u8>,
    is_leader: bool,
    phase: RoundPhase,
}

impl View for RoundState {
    type V = RoundStateView;

    closed spec fn view(&self) -> RoundStateView {
        RoundStateView {
            height: self.height,
            leader: self.leader@,
            is_leader: self.is_leader,
            phase: self.phase,
        }
    }
}

impl RoundState {
    /// A round state at genesis: awaiting the first block past `height`.
    pub fn new(height: u64, leader: Vec<u8>, is_leader: bool) -> (r: Self)
        ensures
            r@ == (RoundStateView {
                height,
                leader: leader@,
                is_leader,
                phase: RoundPhase::AwaitingBlock,
            }),
    {
        RoundState { height, leader, is_leader, phase: RoundPhase::AwaitingBlock }
    }

    /// The height this round is at.
    pub fn current_height(&self) -> (r: u64)
        ensures
            r == self@.height,
    {
        self.height
    }

    /// The leader chosen for this height.
    pub fn current_leader(&self) -> (r: &Vec<u8>)
        ensures
            r@ == self@.leader,
    {
        &self.leader
    }

    /// Whether this node leads the current height.
    pub fn is_leader(&self) -> (r: bool)
        ensures
            r == self@.is_leader,
    {
        self.is_leader
    }

    /// The current phase.
    pub fn phase(&self) -> (r: RoundPhase)
        ensures
            r == self@.phase,
    {
        self.phase
    }

    /// Advances to a new height with its freshly computed leader. The
    /// caller must have established that the height is exactly the next
    /// one: a gap has no defined leader rotation and is rejected at the
    /// consensus core as fatal.
    pub fn new_height(&mut self, block_height: u64, leader: Vec<u8>, is_leader: bool)
        requires
            block_height == old(self)@.height + 1,
        ensures
            final(self)@ == (RoundStateView {
                height: block_height,
                leader: leader@,
                is_leader,
                phase: RoundPhase::PrePropose,
            }),
    {
        self.height = block_height;
        self.leader = leader;
        self.is_leader = is_leader;
        self.phase = RoundPhase::PrePropose;
    }

    /// Records the leader's proposal: moves pre-propose to proposed.
    /// Returns whether the phase advanced.
    pub fn on_proposal(&mut self) -> (r: bool)
        ensures
            r == (old(self)@.phase == RoundPhase::PrePropose),
            r ==> final(self)@ == (RoundStateView { phase: RoundPhase::Proposed, ..old(self)@ }),
            !r ==> final(self)@ == old(self)@,
    {
        if self.phase == RoundPhase::PrePropose {
            self.phase = RoundPhase::Proposed;
            true
        } else {
            false
        }
    }

    /// Records a committed quorum: moves proposed to committed. Returns
    /// whether the phase advanced.
    pub fn on_commit_quorum(&mut self) -> (r: bool)
        ensures
            r == (old(self)@.phase == RoundPhase::Proposed),
            r ==> final(self)@ == (RoundStateView { phase: RoundPhase::Committed, ..old(self)@ }),
            !r ==> final(self)@ == old(self)@,
    {
        if self.phase == RoundPhase::Proposed {
            self.phase = RoundPhase::Committed;
            true
        } else {
            false
        }
    }
}

} // verus!
