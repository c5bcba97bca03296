use angstrom_consensus::bundle::{quorum_reached, BundleVoteManager, BundleVoteMessage};
use angstrom_consensus::guards::{generate_node_keys, GuardSet};
use angstrom_consensus::signer::Signer;
use angstrom_consensus::types::{Bundle23Votes, BundleVote, SimmedBundle, Valid23Bundle};

fn make_guards(n: u64) -> (GuardSet, Vec<(Vec<u8>, Vec<u8>)>) {
    let keys = generate_node_keys(n);
    let mut guards = GuardSet::empty();
    for (pk, _sk) in keys.iter() {
        assert!(guards.add_guard(pk.clone()));
    }
    (guards, keys)
}

fn vote_from(keys: &[(Vec<u8>, Vec<u8>)], i: usize, hash: &Vec<u8>, height: u64, round: u64) -> BundleVote {
    let signer = Signer::new(keys[i].1.clone()).unwrap();
    signer.sign_bundle_vote(hash, height, round)
}

#[test]
fn bundle_hash_is_keccak_of_raw() {
    let raw = vec![1u8, 2, 3, 4];
    let bundle = SimmedBundle { raw: raw.clone(), cumulative_lp_bribe: 7 };
    let hash = bundle.hash();
    assert_eq!(hash, ethers_core::utils::keccak256(&raw).to_vec());
    assert_ne!(hash, raw);
}

#[test]
fn node_keys_match_secp256k1_derivation() {
    let keys = generate_node_keys(2);
    assert_eq!(keys.len(), 2);
    for (pk, sk) in keys.iter() {
        assert_eq!(pk.len(), 33);
        assert_eq!(sk.len(), 32);
        let arr: [u8; 32] = sk.as_slice().try_into().unwrap();
        let secret = secp256k1::SecretKey::from_secret_bytes(arr).unwrap();
        let derived = secp256k1::PublicKey::from_secret_key(&secret).serialize().to_vec();
        assert_eq!(pk, &derived);
    }
}

#[test]
fn vote_signature_recovers_with_secp256k1() {
    // The signed digest is keccak-256 of hash || height || round, each
    // integer big-endian; the signature's last byte is the recovery id.
    let (_, keys) = make_guards(1);
    let hash = vec![9u8; 32];
    let vote = vote_from(&keys, 0, &hash, 10, 0);
    assert_eq!(vote.signature.len(), 65);
    let mut payload = hash.clone();
    payload.extend_from_slice(&10u64.to_be_bytes());
    payload.extend_from_slice(&0u64.to_be_bytes());
    let digest = ethers_core::utils::keccak256(&payload);
    let recid = secp256k1::ecdsa::RecoveryId::try_from(vote.signature[64] as i32).unwrap();
    let rsig =
        secp256k1::ecdsa::RecoverableSignature::from_compact(&vote.signature[..64], recid)
            .unwrap();
    let pk = rsig.recover_ecdsa(secp256k1::Message::from_digest(digest)).unwrap();
    assert_eq!(pk.serialize().to_vec(), keys[0].0);
}

#[test]
fn quorum_is_exact_two_thirds_fraction() {
    assert!(quorum_reached(3, 4));
    assert!(!quorum_reached(2, 4));
    assert!(!quorum_reached(2, 3));
    assert!(quorum_reached(3, 3));
    assert!(quorum_reached(1, 1));
    assert!(!quorum_reached(0, 0));
}

#[test]
fn bundle_propagates_only_on_first_submission() {
    let (guards, _keys) = make_guards(4);
    let mut manager = BundleVoteManager::new(guards);
    let raw = vec![1u8, 2, 3];
    let first = manager.new_simmed_bundle(SimmedBundle { raw: raw.clone(), cumulative_lp_bribe: 5 });
    match first {
        Some(BundleVoteMessage::SignAndPropagate(h)) => {
            assert_eq!(h, ethers_core::utils::keccak256(&raw).to_vec());
        }
        _ => panic!("first submission must ask to sign and propagate"),
    }
    let second = manager.new_simmed_bundle(SimmedBundle { raw, cumulative_lp_bribe: 5 });
    assert!(second.is_none());
}

#[test]
fn three_of_four_votes_finalize() {
    let (guards, keys) = make_guards(4);
    let mut manager = BundleVoteManager::new(guards);
    let bundle = SimmedBundle { raw: vec![1u8, 2, 3], cumulative_lp_bribe: 5 };
    let hash = bundle.hash();
    assert!(manager.new_simmed_bundle(bundle).is_some());
    assert!(manager.new_bundle_vote(vote_from(&keys, 0, &hash, 10, 0)).is_none());
    assert!(!manager.has_signed_bundle(&vec![0u8; 32]));
    assert!(manager.has_signed_bundle(&hash));
    assert!(manager.new_bundle_vote(vote_from(&keys, 1, &hash, 10, 0)).is_none());
    let cert = manager.new_bundle_vote(vote_from(&keys, 2, &hash, 10, 0));
    let cert = cert.expect("third distinct vote crosses 3 > 2*4/3");
    assert_eq!(cert.hash, hash);
    assert_eq!(cert.height, 10);
    assert_eq!(cert.round, 0);
    assert_eq!(cert.signatures.len(), 3);
    // the pending tally was consumed
    assert!(!manager.has_signed_bundle(&hash));
}

#[test]
fn two_of_four_votes_do_not_finalize() {
    let (guards, keys) = make_guards(4);
    let mut manager = BundleVoteManager::new(guards);
    let bundle = SimmedBundle { raw: vec![4u8, 5], cumulative_lp_bribe: 5 };
    let hash = bundle.hash();
    assert!(manager.new_simmed_bundle(bundle).is_some());
    assert!(manager.new_bundle_vote(vote_from(&keys, 0, &hash, 10, 0)).is_none());
    assert!(manager.new_bundle_vote(vote_from(&keys, 1, &hash, 10, 0)).is_none());
    assert!(manager.has_signed_bundle(&hash));
}

#[test]
fn single_guard_finalizes_alone() {
    let (guards, keys) = make_guards(1);
    let mut manager = BundleVoteManager::new(guards);
    let hash = vec![7u8; 32];
    let cert = manager.new_bundle_vote(vote_from(&keys, 0, &hash, 3, 1));
    let cert = cert.expect("one vote of one guard is 3 > 2");
    assert_eq!(cert.signatures.len(), 1);
}

#[test]
fn unknown_guard_vote_changes_nothing() {
    let (guards, _keys) = make_guards(4);
    let outsider = generate_node_keys(1);
    let mut manager = BundleVoteManager::new(guards);
    let hash = vec![8u8; 32];
    let vote = vote_from(&outsider, 0, &hash, 10, 0);
    assert!(manager.new_bundle_vote(vote).is_none());
    assert!(!manager.has_signed_bundle(&hash));
}

#[test]
fn duplicate_signature_never_increases_tally() {
    let (guards, keys) = make_guards(4);
    let mut manager = BundleVoteManager::new(guards);
    let hash = vec![3u8; 32];
    let v0 = vote_from(&keys, 0, &hash, 10, 0);
    let v0_again = vote_from(&keys, 0, &hash, 10, 0);
    // RFC6979 signing is deterministic, so this duplicate is bit-identical.
    assert_eq!(v0.signature, v0_again.signature);
    assert!(manager.new_bundle_vote(v0).is_none());
    assert!(manager.new_bundle_vote(v0_again).is_none());
    assert!(manager.new_bundle_vote(vote_from(&keys, 1, &hash, 10, 0)).is_none());
    // were the duplicate counted, this third submission would be the
    // fourth tallied signature; it is the third and just reaches quorum
    let cert = manager.new_bundle_vote(vote_from(&keys, 2, &hash, 10, 0)).unwrap();
    assert_eq!(cert.signatures.len(), 3);
}

// Flips an ECDSA signature's s to n - s and toggles the recovery id:
// a byte-distinct signature that recovers to the same public key.
fn malleate(sig: &[u8]) -> Vec<u8> {
    let order: [u8; 32] = [
        0xFF, 0xFF, 0xFF, 0xFF, 0xFF, 0xFF, 0xFF, 0xFF, 0xFF, 0xFF, 0xFF, 0xFF, 0xFF, 0xFF,
        0xFF, 0xFE, 0xBA, 0xAE, 0xDC, 0xE6, 0xAF, 0x48, 0xA0, 0x3B, 0xBF, 0xD2, 0x5E, 0x8C,
        0xD0, 0x36, 0x41, 0x41,
    ];
    let mut out = sig.to_vec();
    let mut borrow: i32 = 0;
    for i in (0..32).rev() {
        let mut d = order[i] as i32 - sig[32 + i] as i32 - borrow;
        if d < 0 {
            d += 256;
            borrow = 1;
        } else {
            borrow = 0;
        }
        out[32 + i] = d as u8;
    }
    out[64] ^= 1;
    out
}

#[test]
fn malleated_signature_is_not_a_second_vote() {
    let (guards, keys) = make_guards(4);
    let mut manager = BundleVoteManager::new(guards);
    let hash = vec![5u8; 32];
    let v0 = vote_from(&keys, 0, &hash, 10, 0);
    let twisted = BundleVote {
        hash: hash.clone(),
        height: 10,
        round: 0,
        signature: malleate(&v0.signature),
    };
    assert_ne!(twisted.signature, v0.signature);
    // the twisted signature really does recover to the same guard
    let mut payload = hash.clone();
    payload.extend_from_slice(&10u64.to_be_bytes());
    payload.extend_from_slice(&0u64.to_be_bytes());
    let digest = ethers_core::utils::keccak256(&payload);
    let recid = secp256k1::ecdsa::RecoveryId::try_from(twisted.signature[64] as i32).unwrap();
    let rsig =
        secp256k1::ecdsa::RecoverableSignature::from_compact(&twisted.signature[..64], recid)
            .unwrap();
    let pk = rsig.recover_ecdsa(secp256k1::Message::from_digest(digest)).unwrap();
    assert_eq!(pk.serialize().to_vec(), keys[0].0);

    assert!(manager.new_bundle_vote(v0).is_none());
    // the same guard cannot be counted twice by re-signing
    assert!(manager.new_bundle_vote(twisted).is_none());
    assert!(manager.new_bundle_vote(vote_from(&keys, 1, &hash, 10, 0)).is_none());
    // quorum of four still needs a third distinct guard
    let cert = manager.new_bundle_vote(vote_from(&keys, 2, &hash, 10, 0)).unwrap();
    assert_eq!(cert.signatures.len(), 3);
}

#[test]
fn mismatched_round_vote_is_dropped() {
    let (guards, keys) = make_guards(4);
    let mut manager = BundleVoteManager::new(guards);
    let hash = vec![6u8; 32];
    assert!(manager.new_bundle_vote(vote_from(&keys, 0, &hash, 10, 0)).is_none());
    assert!(manager.new_bundle_vote(vote_from(&keys, 1, &hash, 11, 0)).is_none());
    assert!(manager.new_bundle_vote(vote_from(&keys, 2, &hash, 10, 2)).is_none());
    // only the matching-tuple votes count toward the quorum
    assert!(manager.new_bundle_vote(vote_from(&keys, 1, &hash, 10, 0)).is_none());
    assert!(manager.new_bundle_vote(vote_from(&keys, 2, &hash, 10, 0)).is_some());
}

#[test]
fn stale_tallies_are_evicted_on_advance() {
    let (guards, keys) = make_guards(4);
    let mut manager = BundleVoteManager::new(guards);
    let old_hash = vec![1u8; 32];
    let new_hash = vec![2u8; 32];
    assert!(manager.new_bundle_vote(vote_from(&keys, 0, &old_hash, 9, 0)).is_none());
    assert!(manager.new_bundle_vote(vote_from(&keys, 0, &new_hash, 10, 0)).is_none());
    assert!(manager.has_signed_bundle(&old_hash));
    assert!(manager.has_signed_bundle(&new_hash));
    manager.evict_stale(10);
    assert!(!manager.has_signed_bundle(&old_hash));
    assert!(manager.has_signed_bundle(&new_hash));
    // the surviving tally still counts toward quorum
    assert!(manager.new_bundle_vote(vote_from(&keys, 1, &new_hash, 10, 0)).is_none());
    assert!(manager.new_bundle_vote(vote_from(&keys, 2, &new_hash, 10, 0)).is_some());
}

#[test]
fn unvoted_bundles_are_evicted_with_their_round() {
    let (guards, keys) = make_guards(4);
    let mut manager = BundleVoteManager::new(guards);
    let voted = SimmedBundle { raw: vec![1u8], cumulative_lp_bribe: 3 };
    let unvoted = SimmedBundle { raw: vec![2u8], cumulative_lp_bribe: 4 };
    let voted_hash = voted.hash();
    assert!(manager.new_simmed_bundle(voted).is_some());
    assert!(manager.new_simmed_bundle(unvoted).is_some());
    assert!(manager.new_bundle_vote(vote_from(&keys, 0, &voted_hash, 10, 0)).is_none());
    manager.evict_stale(10);
    // the unvoted candidate is gone and is announced anew on resubmission
    let unvoted_again = SimmedBundle { raw: vec![2u8], cumulative_lp_bribe: 4 };
    assert!(manager.new_simmed_bundle(unvoted_again).is_some());
    // the voted candidate survived: its certificate still finalizes it
    assert!(manager.new_bundle_vote(vote_from(&keys, 1, &voted_hash, 10, 0)).is_none());
    let cert = manager.new_bundle_vote(vote_from(&keys, 2, &voted_hash, 10, 0)).unwrap();
    manager.new_bundle23(Valid23Bundle {
        votes: cert,
        bundle: SimmedBundle { raw: vec![1u8], cumulative_lp_bribe: 3 },
    });
    assert_eq!(manager.best_bundle().as_ref().unwrap().bundle.cumulative_lp_bribe, 3);
}

#[test]
fn certificate_without_pending_bundle_is_ignored() {
    let (guards, keys) = make_guards(4);
    let mut manager = BundleVoteManager::new(guards);
    let bundle = SimmedBundle { raw: vec![9u8], cumulative_lp_bribe: 8 };
    let hash = bundle.hash();
    // the certificate wins the race against the bundle: dropped wholesale
    manager.new_bundle23(Valid23Bundle {
        votes: certificate_for(&keys, &[0, 1, 2], &hash, 10, 0),
        bundle: SimmedBundle { raw: vec![9u8], cumulative_lp_bribe: 8 },
    });
    assert!(manager.best_bundle().is_none());
    // nothing was recorded: the late bundle is still announced
    assert!(manager.new_simmed_bundle(bundle).is_some());
}

#[test]
fn junk_pairing_cannot_lower_the_retained_best() {
    let (guards, keys) = make_guards(4);
    let mut manager = BundleVoteManager::new(guards);
    let b1 = SimmedBundle { raw: vec![1u8], cumulative_lp_bribe: 10 };
    let b2 = SimmedBundle { raw: vec![2u8], cumulative_lp_bribe: 4 };
    let (h1, h2) = (b1.hash(), b2.hash());
    assert!(manager.new_simmed_bundle(b1).is_some());
    assert!(manager.new_simmed_bundle(b2).is_some());
    manager.new_bundle23(Valid23Bundle {
        votes: certificate_for(&keys, &[0, 1, 2], &h1, 10, 0),
        bundle: SimmedBundle { raw: vec![1u8], cumulative_lp_bribe: 10 },
    });
    assert_eq!(manager.best_bundle().as_ref().unwrap().bundle.cumulative_lp_bribe, 10);
    // a valid certificate for the low-score bundle, maliciously paired
    // with a high-score junk bundle: what is retained is decided and
    // stored from the looked-up pending bundle, so the best keeps 10
    manager.new_bundle23(Valid23Bundle {
        votes: certificate_for(&keys, &[0, 1, 2], &h2, 10, 0),
        bundle: SimmedBundle { raw: vec![7u8; 9], cumulative_lp_bribe: 999 },
    });
    assert_eq!(manager.best_bundle().as_ref().unwrap().bundle.cumulative_lp_bribe, 10);
}

fn certificate_for(
    keys: &[(Vec<u8>, Vec<u8>)],
    signers: &[usize],
    hash: &Vec<u8>,
    height: u64,
    round: u64,
) -> Bundle23Votes {
    let sigs: Vec<Vec<u8>> = signers
        .iter()
        .map(|i| vote_from(keys, *i, hash, height, round).signature)
        .collect();
    Bundle23Votes::new(hash.clone(), height, round, sigs)
}

#[test]
fn best_bundle_replaced_only_on_strictly_higher_score() {
    let (guards, keys) = make_guards(4);
    let mut manager = BundleVoteManager::new(guards);

    let b1 = SimmedBundle { raw: vec![1u8], cumulative_lp_bribe: 10 };
    let b2 = SimmedBundle { raw: vec![2u8], cumulative_lp_bribe: 5 };
    let b3 = SimmedBundle { raw: vec![3u8], cumulative_lp_bribe: 10 };
    let (h1, h2, h3) = (b1.hash(), b2.hash(), b3.hash());

    assert!(manager.new_simmed_bundle(SimmedBundle { raw: vec![1u8], cumulative_lp_bribe: 10 }).is_some());
    assert!(manager.new_simmed_bundle(SimmedBundle { raw: vec![2u8], cumulative_lp_bribe: 5 }).is_some());
    assert!(manager.new_simmed_bundle(SimmedBundle { raw: vec![3u8], cumulative_lp_bribe: 10 }).is_some());

    manager.new_bundle23(Valid23Bundle {
        votes: certificate_for(&keys, &[0, 1, 2], &h1, 10, 0),
        bundle: b1,
    });
    let best = manager.best_bundle().as_ref().expect("first finalized bundle is retained");
    assert_eq!(best.bundle.raw, vec![1u8]);

    // strictly lower score: retained best is unchanged
    manager.new_bundle23(Valid23Bundle {
        votes: certificate_for(&keys, &[0, 1, 2], &h2, 10, 0),
        bundle: b2,
    });
    assert_eq!(manager.best_bundle().as_ref().unwrap().bundle.raw, vec![1u8]);

    // equal score: ties retain the earlier bundle
    manager.new_bundle23(Valid23Bundle {
        votes: certificate_for(&keys, &[0, 1, 2], &h3, 10, 0),
        bundle: b3,
    });
    assert_eq!(manager.best_bundle().as_ref().unwrap().bundle.raw, vec![1u8]);
}

#[test]
fn best_bundle_improves_on_higher_score() {
    let (guards, keys) = make_guards(4);
    let mut manager = BundleVoteManager::new(guards);

    let b1 = SimmedBundle { raw: vec![1u8], cumulative_lp_bribe: 10 };
    let b2 = SimmedBundle { raw: vec![2u8], cumulative_lp_bribe: 11 };
    let (h1, h2) = (b1.hash(), b2.hash());

    assert!(manager.new_simmed_bundle(SimmedBundle { raw: vec![1u8], cumulative_lp_bribe: 10 }).is_some());
    assert!(manager.new_simmed_bundle(SimmedBundle { raw: vec![2u8], cumulative_lp_bribe: 11 }).is_some());

    manager.new_bundle23(Valid23Bundle {
        votes: certificate_for(&keys, &[0, 1, 2], &h1, 10, 0),
        bundle: b1,
    });
    manager.new_bundle23(Valid23Bundle {
        votes: certificate_for(&keys, &[0, 1, 2], &h2, 10, 0),
        bundle: b2,
    });
    assert_eq!(manager.best_bundle().as_ref().unwrap().bundle.raw, vec![2u8]);
}

#[test]
fn invalid_certificates_are_dropped() {
    let (guards, keys) = make_guards(4);
    let outsider = generate_node_keys(1);
    let mut manager = BundleVoteManager::new(guards);
    let b1 = SimmedBundle { raw: vec![1u8], cumulative_lp_bribe: 10 };
    let h1 = b1.hash();
    assert!(manager.new_simmed_bundle(SimmedBundle { raw: vec![1u8], cumulative_lp_bribe: 10 }).is_some());

    // below quorum
    manager.new_bundle23(Valid23Bundle {
        votes: certificate_for(&keys, &[0, 1], &h1, 10, 0),
        bundle: SimmedBundle { raw: vec![1u8], cumulative_lp_bribe: 10 },
    });
    assert!(manager.best_bundle().is_none());

    // an unknown guard among the signers
    let mut sigs = certificate_for(&keys, &[0, 1], &h1, 10, 0).signatures;
    sigs.push(vote_from(&outsider, 0, &h1, 10, 0).signature);
    manager.new_bundle23(Valid23Bundle {
        votes: Bundle23Votes::new(h1.clone(), 10, 0, sigs),
        bundle: SimmedBundle { raw: vec![1u8], cumulative_lp_bribe: 10 },
    });
    assert!(manager.best_bundle().is_none());

    // a duplicated signature padding out the quorum
    let one = vote_from(&keys, 0, &h1, 10, 0).signature;
    let two = vote_from(&keys, 1, &h1, 10, 0).signature;
    manager.new_bundle23(Valid23Bundle {
        votes: Bundle23Votes::new(h1.clone(), 10, 0, vec![one.clone(), two, one]),
        bundle: SimmedBundle { raw: vec![1u8], cumulative_lp_bribe: 10 },
    });
    assert!(manager.best_bundle().is_none());

    // and the well-formed certificate still lands afterwards
    manager.new_bundle23(Valid23Bundle {
        votes: certificate_for(&keys, &[0, 1, 2], &h1, 10, 0),
        bundle: SimmedBundle { raw: vec![1u8], cumulative_lp_bribe: 10 },
    });
    assert!(manager.best_bundle().is_some());
}

#[test]
fn end_to_end_submit_then_vote() {
    let (guards, keys) = make_guards(4);
    let mut manager = BundleVoteManager::new(guards);
    let bundle = SimmedBundle { raw: vec![0xAB, 0xCD], cumulative_lp_bribe: 42 };
    let hash = bundle.hash();

    let msg = manager.new_simmed_bundle(bundle);
    let announced = match msg {
        Some(BundleVoteMessage::SignAndPropagate(h)) => h,
        _ => panic!("fresh bundle must be announced"),
    };
    assert_eq!(announced, hash);

    assert!(manager.new_bundle_vote(vote_from(&keys, 1, &hash, 10, 0)).is_none());
    assert!(manager.new_bundle_vote(vote_from(&keys, 2, &hash, 10, 0)).is_none());
    let cert = manager.new_bundle_vote(vote_from(&keys, 3, &hash, 10, 0)).unwrap();
    assert_eq!(cert.hash, hash);

    manager.new_bundle23(Valid23Bundle {
        votes: cert,
        bundle: SimmedBundle { raw: vec![0xAB, 0xCD], cumulative_lp_bribe: 42 },
    });
    let best = manager.best_bundle().as_ref().unwrap();
    assert_eq!(best.bundle.cumulative_lp_bribe, 42);
}
