//! The consensus core orchestrator: consumes block-advance, pre-propose,
//! proposal, commit and better-bundle events, drives the round state and
//! the evidence collector, and queues outbound messages for the
//! transport collaborator to broadcast.
//!
//! The core operates on truths: every value handed to it has already
//! been produced or validated elsewhere; it only compares, tallies, and
//! transitions.

use vstd::prelude::*;

use crate::bytes::bytes_eq;
use crate::crypto::{recovered_signer, signature_of};
use crate::evidence::{
    has_conflict, EvidenceCollector, EvidenceCollectorView, EvidenceError,
};
use crate::guards::{guards_wf, GuardSet};
use crate::round::{RoundPhase, RoundState, RoundStateView};
use crate::round_robin::RoundRobinAlgo;
use crate::signer::Signer;
use crate::types::{vote_digest, Bundle23Votes, BundleVote, BundleVoteView, SimmedBundle};

verus! {

/// A guard's pre-propose lock: its lower bound for the round, signed.
pub struct PreProposeBundle {
    pub bundle_hash: Vec<u8>,
    pub height: u64,
    pub round: u64,
    pub lower_bound: u128,
    pub signature: Vec<u8>,
}

/// The round leader's proposal: the vanilla bundle it stands behind and
/// the lower-bound commit for the round, signed.
pub struct LeaderProposal {
    pub bundle_hash: Vec<u8>,
    pub height: u64,
    pub round: u64,
    pub lower_bound: u128,
    pub signature: Vec<u8>,
}

/// A guard's commit on the leader's proposal (an empty hash stands for a
/// nil vote), signed over the canonical (hash, height, round) encoding.
pub struct ProposalCommit {
    pub hash: Vec<u8>,
    pub height: u64,
    pub round: u64,
    pub signature: Vec<u8>,
}

/// An externally supplied "better bundle" signal: the most profitable
/// finalized bundle this guard knows, with its certificate.
pub struct BestSolvedBundleData {
    pub bundle: SimmedBundle,
    pub certificate: Bundle23Votes,
}

/// A finalized bundle with its certificate, ready to hand to builders.
pub struct SubmissionBundle {
    pub bundle: SimmedBundle,
    pub certificate: Bundle23Votes,
}

/// Outbound consensus messages the transport must broadcast.
pub enum ConsensusMessage {
    /// All guards lock their lower bound and broadcast it.
    PrePropose(PreProposeBundle),
    /// The round leader's vanilla bundle and lower-bound commit.
    Proposal(LeaderProposal),
    /// This guard's commit (or nil vote) on the proposal.
    Commit(ProposalCommit),
    /// If leader: the finalized bundle that is sent to builders.
    RelaySubmission(SubmissionBundle),
}

/// Errors the core surfaces to its consumer.
#[derive(PartialEq, Eq, Structural, Clone, Copy, Debug)]
pub enum ConsensusError {
    /// Evidence processing failed.
    EvidenceError(EvidenceError),
    /// A block arrived whose height is not exactly the next one: fatal,
    /// since leader rotation and vote accounting are undefined across a
    /// gap. The consumer must restart the node from a known-good block.
    HeightGap { current: u64, got: u64 },
}

/// The guard identity a commit's signature recovers to over its own
/// (hash, height, round) tuple, if any.
pub open spec fn commit_signer(c: ProposalCommit) -> Option<Seq<u8>> {
    recovered_signer(vote_digest(c.hash@, c.height, c.round), c.signature@)
}

/// A commit is valid when its signature recovers to a registered guard
/// over its own (hash, height, round) tuple.
pub open spec fn commit_valid(guards: Seq<Seq<u8>>, c: ProposalCommit) -> bool {
    match commit_signer(c) {
        Some(pk) => guards.contains(pk),
        None => false,
    }
}

/// The vote-shaped artifact a commit is observed as by the evidence
/// collector: the same signed (hash, height, round) tuple.
pub open spec fn commit_artifact(c: ProposalCommit) -> BundleVoteView {
    BundleVoteView { hash: c.hash@, height: c.height, round: c.round, signature: c.signature@ }
}

/// The consensus core.
pub struct ConsensusCore {
    round_state: RoundState,
    leader_selection: RoundRobinAlgo,
    evidence_collector: EvidenceCollector,
    signer: Signer,
    guards: GuardSet,
    pre_proposes: Vec<PreProposeBundle>,
    commits: Vec<ProposalCommit>,
    outbound: Vec<ConsensusMessage>,
}

impl ConsensusCore {
    /// The round state, for contracts.
    pub closed spec fn spec_round(self) -> RoundStateView {
        self.round_state@
    }

    /// The guard registry, for contracts.
    pub closed spec fn spec_guards(self) -> Seq<Seq<u8>> {
        self.guards@
    }

    /// This node's signer, for contracts.
    pub closed spec fn spec_signer(self) -> Signer {
        self.signer
    }

    /// The queued outbound messages, for contracts.
    pub closed spec fn spec_outbound(self) -> Seq<ConsensusMessage> {
        self.outbound@
    }

    /// The pre-propose locks recorded for the current height.
    pub closed spec fn spec_pre_proposes(self) -> Seq<PreProposeBundle> {
        self.pre_proposes@
    }

    /// The proposal commits recorded for the current round.
    pub closed spec fn spec_commits(self) -> Seq<ProposalCommit> {
        self.commits@
    }

    /// The evidence collector's state, for contracts.
    pub closed spec fn spec_evidence(self) -> EvidenceCollectorView {
        self.evidence_collector@
    }

    /// Well-formed: a nonempty, well-formed guard set and a consistent
    /// signer.
    pub open spec fn wf(self) -> bool {
        &&& guards_wf(self.spec_guards())
        &&& self.spec_guards().len() > 0
        &&& self.spec_signer().wf()
    }

    /// Builds a core at `start_height` and also returns that height: the
    /// block up to which the leader rotation has state.
    pub fn new(guards: GuardSet, signer: Signer, start_height: u64) -> (r: (Self, u64))
        requires
            guards.wf(),
            guards@.len() > 0,
            signer.wf(),
        ensures
            r.0.wf(),
            r.1 == start_height,
            r.0.spec_guards() == guards@,
            r.0.spec_signer() == signer,
            r.0.spec_round().height == start_height,
            r.0.spec_round().phase == RoundPhase::AwaitingBlock,
            r.0.spec_round().leader == guards@[(start_height as int) % (guards@.len() as int)],
            r.0.spec_round().is_leader == (r.0.spec_round().leader == signer.spec_public()),
            r.0.spec_outbound().len() == 0,
            r.0.spec_pre_proposes().len() == 0,
            r.0.spec_commits().len() == 0,
            r.0.spec_evidence().observed.len() == 0,
            r.0.spec_evidence().evidence.len() == 0,
    {
        let leader_selection = RoundRobinAlgo::new();
        let leader = leader_selection.on_new_block(start_height, &guards).unwrap();
        let is_leader = signer.is_us(&leader);
        let round_state = RoundState::new(start_height, leader, is_leader);
        let core = ConsensusCore {
            round_state,
            leader_selection,
            evidence_collector: EvidenceCollector::new(),
            signer,
            guards,
            pre_proposes: Vec::new(),
            commits: Vec::new(),
            outbound: Vec::new(),
        };
        (core, start_height)
    }

    /// The height the core is currently at.
    pub fn current_height(&self) -> (r: u64)
        ensures
            r == self.spec_round().height,
    {
        self.round_state.current_height()
    }

    /// The leader chosen for the current height.
    pub fn current_leader(&self) -> (r: &Vec<u8>)
        ensures
            r@ == self.spec_round().leader,
    {
        self.round_state.current_leader()
    }

    /// Whether this node leads the current height.
    pub fn is_leader(&self) -> (r: bool)
        ensures
            r == self.spec_round().is_leader,
    {
        self.round_state.is_leader()
    }

    /// The current round phase.
    pub fn phase(&self) -> (r: RoundPhase)
        ensures
            r == self.spec_round().phase,
    {
        self.round_state.phase()
    }

    /// Accepts a new finalized chain block. Succeeds exactly when the
    /// block's height is the current height plus one; the new round-robin
    /// leader is then recomputed and the per-round collections reset. Any
    /// other height is a fatal gap: the state is left untouched and the
    /// consumer must restart the node.
    pub fn new_block(&mut self, block_height: u64) -> (r: Result<(), ConsensusError>)
        requires
            old(self).wf(),
        ensures
            final(self).wf(),
            final(self).spec_guards() == old(self).spec_guards(),
            final(self).spec_signer() == old(self).spec_signer(),
            final(self).spec_outbound() == old(self).spec_outbound(),
            final(self).spec_evidence() == old(self).spec_evidence(),
            (r is Ok) == (block_height == old(self).spec_round().height + 1),
            r is Ok ==> {
                &&& final(self).spec_round() == (RoundStateView {
                    height: block_height,
                    leader: old(self).spec_guards()[
                        (block_height as int) % (old(self).spec_guards().len() as int)
                    ],
                    is_leader: (old(self).spec_guards()[
                        (block_height as int) % (old(self).spec_guards().len() as int)
                    ] == old(self).spec_signer().spec_public()),
                    phase: RoundPhase::PrePropose,
                })
                &&& final(self).spec_pre_proposes().len() == 0
                &&& final(self).spec_commits().len() == 0
            },
            r is Err ==> {
                &&& r == Err::<(), ConsensusError>(ConsensusError::HeightGap {
                    current: old(self).spec_round().height,
                    got: block_height,
                })
                &&& final(self).spec_round() == old(self).spec_round()
                &&& final(self).spec_pre_proposes() == old(self).spec_pre_proposes()
                &&& final(self).spec_commits() == old(self).spec_commits()
            },
    {
        let h = self.round_state.current_height();
        if !(block_height > 0 && block_height - 1 == h) {
            return Err(ConsensusError::HeightGap { current: h, got: block_height });
        }
        let leader = self.leader_selection.on_new_block(block_height, &self.guards).unwrap();
        let is_leader = self.signer.is_us(&leader);
        self.round_state.new_height(block_height, leader, is_leader);
        self.pre_proposes.clear();
        self.commits.clear();
        Ok(())
    }

    /// Records a guard's pre-propose lock. Locks for any other height
    /// than the current one are dropped as late or early traffic.
    pub fn new_pre_propose(&mut self, commit: PreProposeBundle)
        requires
            old(self).wf(),
        ensures
            final(self).wf(),
            final(self).spec_round() == old(self).spec_round(),
            final(self).spec_guards() == old(self).spec_guards(),
            final(self).spec_signer() == old(self).spec_signer(),
            final(self).spec_outbound() == old(self).spec_outbound(),
            final(self).spec_commits() == old(self).spec_commits(),
            final(self).spec_evidence() == old(self).spec_evidence(),
            commit.height == old(self).spec_round().height ==> final(self).spec_pre_proposes()
                == old(self).spec_pre_proposes().push(commit),
            commit.height != old(self).spec_round().height ==> final(self).spec_pre_proposes()
                == old(self).spec_pre_proposes(),
    {
        if commit.height == self.round_state.current_height() {
            self.pre_proposes.push(commit);
        }
    }

    /// Consumes the leader's proposal. Accepted exactly when it is for
    /// the current height while the round is still in pre-propose; the
    /// round then moves to proposed and this guard's own signed commit on
    /// the proposal is queued for broadcast. The proposal itself is taken
    /// as a truth: origin and signature checks happen in the validation
    /// pipeline before the event reaches this core, which is why commits
    /// — which arrive raw from peers — are verified here but proposals
    /// are not.
    pub fn proposal(&mut self, proposal: LeaderProposal)
        requires
            old(self).wf(),
        ensures
            final(self).wf(),
            final(self).spec_guards() == old(self).spec_guards(),
            final(self).spec_signer() == old(self).spec_signer(),
            final(self).spec_pre_proposes() == old(self).spec_pre_proposes(),
            final(self).spec_commits() == old(self).spec_commits(),
            final(self).spec_evidence() == old(self).spec_evidence(),
            (proposal.height == old(self).spec_round().height && old(self).spec_round().phase
                == RoundPhase::PrePropose) ==> {
                &&& final(self).spec_round() == (RoundStateView {
                    phase: RoundPhase::Proposed,
                    ..old(self).spec_round()
                })
                &&& exists|c: ProposalCommit|
                    final(self).spec_outbound() == old(self).spec_outbound().push(
                        ConsensusMessage::Commit(c),
                    ) && (#[trigger] c.hash@) == proposal.bundle_hash@ && c.height
                        == proposal.height && c.round == proposal.round && c.signature@
                        == signature_of(
                        old(self).spec_signer().spec_secret(),
                        vote_digest(proposal.bundle_hash@, proposal.height, proposal.round),
                    )
            },
            !(proposal.height == old(self).spec_round().height && old(self).spec_round().phase
                == RoundPhase::PrePropose) ==> {
                &&& final(self).spec_round() == old(self).spec_round()
                &&& final(self).spec_outbound() == old(self).spec_outbound()
            },
    {
        if proposal.height != self.round_state.current_height() {
            return;
        }
        let advanced = self.round_state.on_proposal();
        if !advanced {
            return;
        }
        let vote = self.signer.sign_bundle_vote(
            &proposal.bundle_hash,
            proposal.height,
            proposal.round,
        );
        let commit = ProposalCommit {
            hash: vote.hash,
            height: vote.height,
            round: vote.round,
            signature: vote.signature,
        };
        let ghost gc = commit;
        self.outbound.push(ConsensusMessage::Commit(commit));
        proof {
            assert(gc.hash@ == proposal.bundle_hash@);
            assert(self.outbound@ == old(self).outbound@.push(ConsensusMessage::Commit(gc)));
            assert(exists|c: ProposalCommit|
                self.outbound@ == old(self).outbound@.push(ConsensusMessage::Commit(c)) && (
                #[trigger] c.hash@) == proposal.bundle_hash@ && c.height == proposal.height
                    && c.round == proposal.round && c.signature@ == signature_of(
                    old(self).spec_signer().spec_secret(),
                    vote_digest(proposal.bundle_hash@, proposal.height, proposal.round),
                ));
        }
    }

    /// Collects a guard's commit on the current proposal. Accepted
    /// exactly when it is for the current height in the proposed phase,
    /// its signature recovers to a registered guard, and no collected
    /// commit already recovers to that guard: the commit quorum counts
    /// identities, so neither a byte-identical duplicate nor a re-signed
    /// or malleated commit is counted twice. Every commit that verifies
    /// is also handed to the evidence collector, so conflicting signed
    /// statements by one guard become slashable evidence. When the
    /// collected commits cross the two-thirds quorum the round moves to
    /// committed.
    pub fn proposal_commit(&mut self, commit: ProposalCommit)
        requires
            old(self).wf(),
        ensures
            final(self).wf(),
            final(self).spec_guards() == old(self).spec_guards(),
            final(self).spec_signer() == old(self).spec_signer(),
            final(self).spec_outbound() == old(self).spec_outbound(),
            final(self).spec_pre_proposes() == old(self).spec_pre_proposes(),
            ({
                let accepted = commit.height == old(self).spec_round().height && old(
                    self,
                ).spec_round().phase == RoundPhase::Proposed && commit_valid(
                    old(self).spec_guards(),
                    commit,
                ) && !(exists|a: int|
                    0 <= a < old(self).spec_commits().len() && commit_signer(
                        #[trigger] old(self).spec_commits()[a],
                    ) == commit_signer(commit));
                let signer_id = recovered_signer(
                    vote_digest(commit.hash@, commit.height, commit.round),
                    commit.signature@,
                )->Some_0;
                if accepted {
                    &&& final(self).spec_commits() == old(self).spec_commits().push(commit)
                    &&& final(self).spec_round() == (RoundStateView {
                        phase: if crate::bundle::has_quorum(
                            (old(self).spec_commits().len() + 1) as nat,
                            old(self).spec_guards().len(),
                        ) {
                            RoundPhase::Committed
                        } else {
                            RoundPhase::Proposed
                        },
                        ..old(self).spec_round()
                    })
                    &&& final(self).spec_evidence().observed == old(
                        self,
                    ).spec_evidence().observed.push((signer_id, commit_artifact(commit)))
                    &&& (has_conflict(
                        old(self).spec_evidence().observed,
                        signer_id,
                        commit_artifact(commit),
                    ) ==> final(self).spec_evidence().evidence.len() == old(
                        self,
                    ).spec_evidence().evidence.len() + 1)
                    &&& (!has_conflict(
                        old(self).spec_evidence().observed,
                        signer_id,
                        commit_artifact(commit),
                    ) ==> final(self).spec_evidence().evidence == old(
                        self,
                    ).spec_evidence().evidence)
                } else {
                    &&& final(self).spec_commits() == old(self).spec_commits()
                    &&& final(self).spec_round() == old(self).spec_round()
                    &&& final(self).spec_evidence() == old(self).spec_evidence()
                }
            }),
    {
        if commit.height != self.round_state.current_height() {
            return;
        }
        match self.round_state.phase() {
            RoundPhase::Proposed => {},
            _ => {
                return;
            },
        }
        let digest = crate::types::compute_vote_digest(&commit.hash, commit.height, commit.round);
        let pk = match crate::crypto::recover_signer(&digest, &commit.signature) {
            Some(pk) => pk,
            None => {
                return;
            },
        };
        if !self.guards.contains_key(&pk) {
            return;
        }
        let mut a: usize = 0;
        while a < self.commits.len()
            invariant
                a <= self.commits@.len(),
                old(self).wf(),
                *self == *old(self),
                commit_signer(commit) == Some(pk@),
                forall|x: int| 0 <= x < a ==> commit_signer(#[trigger] self.commits@[x])
                    != commit_signer(commit),
            decreases self.commits.len() - a,
        {
            let stored_digest = crate::types::compute_vote_digest(
                &self.commits[a].hash,
                self.commits[a].height,
                self.commits[a].round,
            );
            match crate::crypto::recover_signer(&stored_digest, &self.commits[a].signature) {
                Some(p) => {
                    if bytes_eq(&p, &pk) {
                        proof {
                            assert(commit_signer(self.commits@[a as int]) == Some(p@));
                            assert(commit_signer(self.commits@[a as int]) == commit_signer(
                                commit,
                            ));
                        }
                        return;
                    }
                    proof {
                        assert(commit_signer(self.commits@[a as int]) == Some(p@));
                    }
                },
                None => {
                    proof {
                        assert(commit_signer(self.commits@[a as int]) is None);
                    }
                },
            }
            a += 1;
        }
        let artifact = BundleVote {
            hash: commit.hash.clone(),
            height: commit.height,
            round: commit.round,
            signature: commit.signature.clone(),
        };
        let observed = self.evidence_collector.observe_vote(pk, artifact);
        proof {
            assert(observed is Ok);
        }
        self.commits.push(commit);
        let n = self.guards.len();
        if crate::bundle::quorum_reached(self.commits.len(), n) {
            self.round_state.on_commit_quorum();
        }
    }

    /// Consumes a "better bundle" signal. Only the round leader relays:
    /// if this node leads the current height, the finalized bundle is
    /// queued for submission to builders; otherwise the signal is noted
    /// and dropped.
    pub fn better_bundle(&mut self, bundle_data: BestSolvedBundleData)
        requires
            old(self).wf(),
        ensures
            final(self).wf(),
            final(self).spec_round() == old(self).spec_round(),
            final(self).spec_guards() == old(self).spec_guards(),
            final(self).spec_signer() == old(self).spec_signer(),
            final(self).spec_pre_proposes() == old(self).spec_pre_proposes(),
            final(self).spec_commits() == old(self).spec_commits(),
            final(self).spec_evidence() == old(self).spec_evidence(),
            old(self).spec_round().is_leader ==> exists|s: SubmissionBundle|
                final(self).spec_outbound() == old(self).spec_outbound().push(
                    ConsensusMessage::RelaySubmission(s),
                ) && (#[trigger] s.bundle)@ == bundle_data.bundle@ && s.certificate@
                    == bundle_data.certificate@,
            !old(self).spec_round().is_leader ==> final(self).spec_outbound() == old(
                self,
            ).spec_outbound(),
    {
        if self.round_state.is_leader() {
            let ghost gb = bundle_data.bundle@;
            let ghost gcert = bundle_data.certificate@;
            let submission = SubmissionBundle {
                bundle: bundle_data.bundle,
                certificate: bundle_data.certificate,
            };
            let ghost gs = submission;
            self.outbound.push(ConsensusMessage::RelaySubmission(submission));
            proof {
                assert(gs.bundle@ == gb && gs.certificate@ == gcert);
                assert(self.outbound@ == old(self).outbound@.push(
                    ConsensusMessage::RelaySubmission(gs),
                ));
                assert(exists|s2: SubmissionBundle|
                    self.outbound@ == old(self).outbound@.push(
                        ConsensusMessage::RelaySubmission(s2),
                    ) && (#[trigger] s2.bundle)@ == bundle_data.bundle@ && s2.certificate@
                        == bundle_data.certificate@);
            }
        }
    }

    /// Hands one verified vote to the evidence collector, surfacing its
    /// failure as a typed consensus error.
    pub fn observe_vote_evidence(&mut self, guard: Vec<u8>, vote: BundleVote) -> (r: Result<
        bool,
        ConsensusError,
    >)
        requires
            old(self).wf(),
        ensures
            final(self).wf(),
            final(self).spec_round() == old(self).spec_round(),
            final(self).spec_guards() == old(self).spec_guards(),
            final(self).spec_signer() == old(self).spec_signer(),
            final(self).spec_outbound() == old(self).spec_outbound(),
            final(self).spec_pre_proposes() == old(self).spec_pre_proposes(),
            final(self).spec_commits() == old(self).spec_commits(),
            (r is Ok) == (guard@.len() == 33),
            match r {
                Ok(found) => {
                    &&& guard@.len() == 33
                    &&& final(self).spec_evidence().observed == old(
                        self,
                    ).spec_evidence().observed.push((guard@, vote@))
                    &&& found == has_conflict(old(self).spec_evidence().observed, guard@, vote@)
                    &&& (!found ==> final(self).spec_evidence().evidence == old(
                        self,
                    ).spec_evidence().evidence)
                    &&& (found ==> final(self).spec_evidence().evidence.len() == old(
                        self,
                    ).spec_evidence().evidence.len() + 1)
                },
                Err(e) => {
                    &&& e == ConsensusError::EvidenceError(EvidenceError::MalformedIdentity)
                    &&& guard@.len() != 33
                    &&& final(self).spec_evidence() == old(self).spec_evidence()
                },
            },
    {
        match self.evidence_collector.observe_vote(guard, vote) {
            Ok(found) => Ok(found),
            Err(e) => Err(ConsensusError::EvidenceError(e)),
        }
    }

    /// Pulls the next outbound message, if one is queued. This is the
    /// sole observable surface: the transport collaborator broadcasts
    /// what it yields.
    pub fn poll_outbound(&mut self) -> (r: Option<ConsensusMessage>)
        ensures
            final(self).spec_round() == old(self).spec_round(),
            final(self).spec_guards() == old(self).spec_guards(),
            final(self).spec_signer() == old(self).spec_signer(),
            final(self).spec_pre_proposes() == old(self).spec_pre_proposes(),
            final(self).spec_commits() == old(self).spec_commits(),
            final(self).spec_evidence() == old(self).spec_evidence(),
            match r {
                Some(msg) => old(self).spec_outbound().len() > 0 && msg == old(
                    self,
                ).spec_outbound()[0] && final(self).spec_outbound() == old(
                    self,
                ).spec_outbound().subrange(1, old(self).spec_outbound().len() as int),
                None => old(self).spec_outbound().len() == 0 && final(self).spec_outbound()
                    == old(self).spec_outbound(),
            },
    {
        if self.outbound.len() == 0 {
            None
        } else {
            let msg = self.outbound.remove(0);
            proof {
                assert(self.outbound@ =~= old(self).outbound@.subrange(
                    1,
                    old(self).outbound@.len() as int,
                ));
            }
            Some(msg)
        }
    }
}

} // verus!
