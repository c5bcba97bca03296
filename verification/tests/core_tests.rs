use angstrom_consensus::consensus_core::{
    BestSolvedBundleData, ConsensusCore, ConsensusError, ConsensusMessage, LeaderProposal,
    PreProposeBundle, ProposalCommit,
};
use angstrom_consensus::evidence::EvidenceError;
use angstrom_consensus::guards::{generate_node_keys, GuardSet};
use angstrom_consensus::round::RoundPhase;
use angstrom_consensus::signer::Signer;
use angstrom_consensus::types::{Bundle23Votes, SimmedBundle};

fn make_core(n: u64, start_height: u64) -> (ConsensusCore, Vec<(Vec<u8>, Vec<u8>)>) {
    let keys = generate_node_keys(n);
    let mut guards = GuardSet::empty();
    for (pk, _sk) in keys.iter() {
        assert!(guards.add_guard(pk.clone()));
    }
    let signer = Signer::new(keys[0].1.clone()).unwrap();
    let (core, height) = ConsensusCore::new(guards, signer, start_height);
    assert_eq!(height, start_height);
    (core, keys)
}

fn commit_from(keys: &[(Vec<u8>, Vec<u8>)], i: usize, hash: &Vec<u8>, height: u64, round: u64) -> ProposalCommit {
    let signer = Signer::new(keys[i].1.clone()).unwrap();
    let vote = signer.sign_bundle_vote(hash, height, round);
    ProposalCommit { hash: vote.hash, height: vote.height, round: vote.round, signature: vote.signature }
}

#[test]
fn sequential_block_advances_and_rotates_leader() {
    let (mut core, keys) = make_core(4, 9);
    assert_eq!(core.current_height(), 9);
    assert!(core.new_block(10).is_ok());
    assert_eq!(core.current_height(), 10);
    assert_eq!(core.phase(), RoundPhase::PrePropose);
    // round-robin: guards[10 mod 4]
    assert_eq!(core.current_leader(), &keys[2].0);
    assert!(core.new_block(11).is_ok());
    assert_eq!(core.current_leader(), &keys[3].0);
}

#[test]
fn height_gap_is_fatal() {
    let (mut core, _keys) = make_core(4, 9);
    assert!(core.new_block(10).is_ok());
    let r = core.new_block(12);
    assert_eq!(r, Err(ConsensusError::HeightGap { current: 10, got: 12 }));
    // the gap left the state untouched: the node is to be restarted
    assert_eq!(core.current_height(), 10);
    // repeating the same height is a gap too
    assert_eq!(
        core.new_block(10),
        Err(ConsensusError::HeightGap { current: 10, got: 10 })
    );
}

#[test]
fn proposal_moves_phase_and_queues_own_commit() {
    let (mut core, _keys) = make_core(4, 9);
    assert!(core.new_block(10).is_ok());
    let hash = vec![5u8; 32];
    core.proposal(LeaderProposal {
        bundle_hash: hash.clone(),
        height: 10,
        round: 0,
        lower_bound: 3,
        signature: vec![],
    });
    assert_eq!(core.phase(), RoundPhase::Proposed);
    match core.poll_outbound() {
        Some(ConsensusMessage::Commit(c)) => {
            assert_eq!(c.hash, hash);
            assert_eq!(c.height, 10);
            assert_eq!(c.round, 0);
            assert_eq!(c.signature.len(), 65);
        }
        _ => panic!("a proposal must queue this guard's own commit"),
    }
    assert!(core.poll_outbound().is_none());
}

#[test]
fn stale_proposal_is_ignored() {
    let (mut core, _keys) = make_core(4, 9);
    assert!(core.new_block(10).is_ok());
    core.proposal(LeaderProposal {
        bundle_hash: vec![5u8; 32],
        height: 9,
        round: 0,
        lower_bound: 3,
        signature: vec![],
    });
    assert_eq!(core.phase(), RoundPhase::PrePropose);
    assert!(core.poll_outbound().is_none());
}

#[test]
fn commit_quorum_moves_round_to_committed() {
    let (mut core, keys) = make_core(4, 9);
    assert!(core.new_block(10).is_ok());
    let hash = vec![5u8; 32];
    core.proposal(LeaderProposal {
        bundle_hash: hash.clone(),
        height: 10,
        round: 0,
        lower_bound: 3,
        signature: vec![],
    });
    core.proposal_commit(commit_from(&keys, 1, &hash, 10, 0));
    assert_eq!(core.phase(), RoundPhase::Proposed);
    // a byte-identical duplicate does not advance the tally
    core.proposal_commit(commit_from(&keys, 1, &hash, 10, 0));
    assert_eq!(core.phase(), RoundPhase::Proposed);
    core.proposal_commit(commit_from(&keys, 2, &hash, 10, 0));
    assert_eq!(core.phase(), RoundPhase::Proposed);
    core.proposal_commit(commit_from(&keys, 3, &hash, 10, 0));
    assert_eq!(core.phase(), RoundPhase::Committed);
}

#[test]
fn unknown_signer_commit_is_dropped() {
    let (mut core, keys) = make_core(4, 9);
    let outsider = generate_node_keys(1);
    assert!(core.new_block(10).is_ok());
    let hash = vec![5u8; 32];
    core.proposal(LeaderProposal {
        bundle_hash: hash.clone(),
        height: 10,
        round: 0,
        lower_bound: 3,
        signature: vec![],
    });
    core.proposal_commit(commit_from(&outsider, 0, &hash, 10, 0));
    core.proposal_commit(commit_from(&keys, 1, &hash, 10, 0));
    core.proposal_commit(commit_from(&keys, 2, &hash, 10, 0));
    // the outsider's commit did not count toward the quorum of three
    assert_eq!(core.phase(), RoundPhase::Proposed);
}

#[test]
fn pre_propose_recorded_only_for_current_height() {
    let (mut core, _keys) = make_core(4, 9);
    assert!(core.new_block(10).is_ok());
    core.new_pre_propose(PreProposeBundle {
        bundle_hash: vec![5u8; 32],
        height: 10,
        round: 0,
        lower_bound: 3,
        signature: vec![],
    });
    core.new_pre_propose(PreProposeBundle {
        bundle_hash: vec![5u8; 32],
        height: 11,
        round: 0,
        lower_bound: 3,
        signature: vec![],
    });
    // no externally observable queue change either way
    assert!(core.poll_outbound().is_none());
}

#[test]
fn leader_relays_better_bundle() {
    // after advancing to height 12 with four guards, guards[12 mod 4] ==
    // guards[0] leads, and the core was built with guard 0's key
    let (mut core, _keys) = make_core(4, 11);
    assert!(core.new_block(12).is_ok());
    assert!(core.is_leader());
    core.better_bundle(BestSolvedBundleData {
        bundle: SimmedBundle { raw: vec![1u8], cumulative_lp_bribe: 9 },
        certificate: Bundle23Votes::new(vec![2u8; 32], 12, 0, vec![]),
    });
    match core.poll_outbound() {
        Some(ConsensusMessage::RelaySubmission(s)) => {
            assert_eq!(s.bundle.cumulative_lp_bribe, 9);
        }
        _ => panic!("the leader must relay the finalized bundle"),
    }
}

#[test]
fn follower_does_not_relay() {
    let (mut core, _keys) = make_core(4, 12);
    assert!(core.new_block(13).is_ok());
    assert!(!core.is_leader());
    core.better_bundle(BestSolvedBundleData {
        bundle: SimmedBundle { raw: vec![1u8], cumulative_lp_bribe: 9 },
        certificate: Bundle23Votes::new(vec![2u8; 32], 13, 0, vec![]),
    });
    assert!(core.poll_outbound().is_none());
}

#[test]
fn conflicting_votes_become_evidence() {
    let (mut core, keys) = make_core(4, 9);
    let signer = Signer::new(keys[1].1.clone()).unwrap();
    let v1 = signer.sign_bundle_vote(&vec![1u8; 32], 10, 0);
    let v2 = signer.sign_bundle_vote(&vec![2u8; 32], 10, 0);
    let v3 = signer.sign_bundle_vote(&vec![1u8; 32], 11, 0);
    assert_eq!(core.observe_vote_evidence(keys[1].0.clone(), v1), Ok(false));
    // same (height, round), different hash: slashable
    assert_eq!(core.observe_vote_evidence(keys[1].0.clone(), v2), Ok(true));
    // a different height conflicts with nothing
    assert_eq!(core.observe_vote_evidence(keys[1].0.clone(), v3), Ok(false));
}

#[test]
fn malformed_identity_surfaces_evidence_error() {
    let (mut core, keys) = make_core(4, 9);
    let signer = Signer::new(keys[1].1.clone()).unwrap();
    let vote = signer.sign_bundle_vote(&vec![1u8; 32], 10, 0);
    let r = core.observe_vote_evidence(vec![1u8, 2, 3], vote);
    assert_eq!(
        r,
        Err(ConsensusError::EvidenceError(EvidenceError::MalformedIdentity))
    );
}

#[test]
fn validators_can_be_added_and_removed() {
    let keys = generate_node_keys(3);
    let mut guards = GuardSet::empty();
    for (pk, _sk) in keys.iter() {
        assert!(guards.add_guard(pk.clone()));
    }
    // a second registration of the same identity is refused
    assert!(!guards.add_guard(keys[0].0.clone()));
    // a malformed identity is refused
    assert!(!guards.add_guard(vec![1, 2, 3]));
    assert_eq!(guards.len(), 3);
    assert!(guards.remove_guard(&keys[1].0));
    assert!(!guards.remove_guard(&keys[1].0));
    assert_eq!(guards.len(), 2);
    assert!(guards.contains_key(&keys[0].0));
    assert!(!guards.contains_key(&keys[1].0));
    assert!(guards.contains_key(&keys[2].0));
}

#[test]
fn signer_knows_its_own_identity() {
    let keys = generate_node_keys(2);
    let signer = Signer::new(keys[0].1.clone()).unwrap();
    assert!(signer.is_us(&keys[0].0));
    assert!(!signer.is_us(&keys[1].0));
    assert_eq!(signer.public_key(), &keys[0].0);
}

#[test]
fn invalid_secret_key_is_refused() {
    assert!(Signer::new(vec![1u8, 2, 3]).is_none());
    assert!(Signer::new(vec![0u8; 32]).is_none());
}
