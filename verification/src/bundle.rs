//! The bundle vote manager: tracks candidate bundles, per-bundle vote
//! tallies, and promotes a tally that crosses the two-thirds threshold to
//! a finalized certificate.
//!
//! Every public operation is specified against a mathematical transition
//! function over [`BundleVoteManagerView`]; the laws at the bottom of the
//! module are proved over those transitions.

use vstd::prelude::*;

use crate::assoc::{distinct_keys, has_key, key_idx, lemma_key_idx_is, lookup};
use crate::bytes::bytes_eq;
use crate::crypto::{recover_signer, recovered_signer};
use crate::guards::{guards_wf, GuardSet};
use crate::types::{
    compute_vote_digest, vote_digest, Bundle23Votes, Bundle23VotesView, BundleVote,
    BundleVoteView, SimmedBundle, SimmedBundleView, Valid23Bundle, Valid23BundleView,
};

verus! {

/// Outbound instruction of the vote manager.
pub enum BundleVoteMessage {
    /// A freshly seen bundle hash: sign it and propagate it.
    SignAndPropagate(Vec<u8>),
    /// A finalized bundle with its certificate, ready for relay.
    NewBundle23Votes(Valid23Bundle),
}

/// The safety-critical quorum condition: strictly more than two thirds of
/// the guard set, as an exact fraction comparison.
pub open spec fn has_quorum(votes: nat, guards: nat) -> bool {
    3 * votes > 2 * guards
}

/// Exact exec form of [`has_quorum`].
pub fn quorum_reached(votes: usize, guards: usize) -> (r: bool)
    ensures
        r == has_quorum(votes as nat, guards as nat),
{
    (votes as u128) * 3 > (guards as u128) * 2
}

/// A vote is valid when its signature recovers to a registered guard
/// identity.
pub open spec fn vote_valid(guards: Seq<Seq<u8>>, v: BundleVoteView) -> bool {
    match v.signer() {
        Some(pk) => guards.contains(pk),
        None => false,
    }
}

/// A certificate is valid against a guard set when it carries a quorum
/// of signatures, each of which recovers to a registered guard identity
/// over the certificate's own (hash, height, round) tuple, and no two of
/// which recover to the same identity: the quorum counts distinct
/// guards, so signature malleability cannot pad it.
pub open spec fn cert_valid(guards: Seq<Seq<u8>>, c: Bundle23VotesView) -> bool {
    &&& has_quorum(c.signatures.len(), guards.len())
    &&& forall|i: int| 0 <= i < c.signatures.len() ==> match recovered_signer(
        vote_digest(c.hash, c.height, c.round),
        #[trigger] c.signatures[i],
    ) {
        Some(pk) => guards.contains(pk),
        None => false,
    }
    &&& forall|i: int, j: int|
        0 <= i < j < c.signatures.len() ==> recovered_signer(
            vote_digest(c.hash, c.height, c.round),
            #[trigger] c.signatures[i],
        ) != recovered_signer(
            vote_digest(c.hash, c.height, c.round),
            #[trigger] c.signatures[j],
        )
}

/// Mathematical image of a pending-bundle table.
pub open spec fn bundle_entries_view(
    entries: Seq<(Vec<u8>, SimmedBundle)>,
) -> Seq<(Seq<u8>, SimmedBundleView)> {
    entries.map_values(|p: (Vec<u8>, SimmedBundle)| (p.0@, p.1@))
}

/// Mathematical image of a vote table: each entry's key with the views
/// of its recorded votes.
pub open spec fn vote_entries_view(
    entries: Seq<(Vec<u8>, Vec<BundleVote>)>,
) -> Seq<(Seq<u8>, Seq<BundleVoteView>)> {
    entries.map_values(|p: (Vec<u8>, Vec<BundleVote>)| (p.0@, p.1@.map_values(|v: BundleVote| v@)))
}

/// Mathematical state of the vote manager.
#[verifier::ext_equal]
pub struct BundleVoteManagerView {
    pub best_bundle: Option<Valid23BundleView>,
    pub known_bundles: Seq<(Seq<u8>, SimmedBundleView)>,
    pub known_bundle_votes: Seq<(Seq<u8>, Seq<BundleVoteView>)>,
    pub known_23_bundles: Seq<Seq<u8>>,
    pub guards: Seq<Seq<u8>>,
}

impl BundleVoteManagerView {
    /// A pending tally under key `k` is sound: nonempty, below quorum
    /// (a tally at quorum is promoted at once, never stored), all votes
    /// for the same (hash, height, round) tuple, each recovering to a
    /// registered guard, and no two recovering to the same guard: the
    /// tally counts identities, not signature bytes.
    pub open spec fn tally_wf(self, k: Seq<u8>, vs: Seq<BundleVoteView>) -> bool {
        &&& vs.len() >= 1
        &&& !has_quorum(vs.len(), self.guards.len())
        &&& forall|a: int| 0 <= a < vs.len() ==> (#[trigger] vs[a]).hash == k
            && vs[a].height == vs[0].height && vs[a].round == vs[0].round
        &&& forall|a: int| 0 <= a < vs.len() ==> vote_valid(self.guards, #[trigger] vs[a])
        &&& forall|a: int, b: int|
            0 <= a < b < vs.len() ==> vs[a].signer() != vs[b].signer()
    }

    /// The manager's invariant.
    pub open spec fn wf(self) -> bool {
        &&& guards_wf(self.guards)
        &&& distinct_keys(self.known_bundles)
        &&& forall|i: int| 0 <= i < self.known_bundles.len()
            ==> (#[trigger] self.known_bundles[i]).1.hash() == self.known_bundles[i].0
        &&& distinct_keys(self.known_bundle_votes)
        &&& forall|i: int| 0 <= i < self.known_bundle_votes.len()
            ==> self.tally_wf(
                (#[trigger] self.known_bundle_votes[i]).0,
                self.known_bundle_votes[i].1,
            )
    }
}

/// The propagate instruction a bundle submission yields: the bundle's
/// hash exactly when that hash has been seen neither as a pending bundle
/// nor as an already-finalized one.
pub open spec fn submit_bundle_msg(
    m: BundleVoteManagerView,
    b: SimmedBundleView,
) -> Option<Seq<u8>> {
    if m.known_23_bundles.contains(b.hash()) || has_key(m.known_bundles, b.hash()) {
        None
    } else {
        Some(b.hash())
    }
}

/// State after a bundle submission: a fresh hash is registered; a
/// duplicate is silently absorbed.
pub open spec fn submit_bundle_post(
    m: BundleVoteManagerView,
    b: SimmedBundleView,
) -> BundleVoteManagerView {
    if submit_bundle_msg(m, b) is Some {
        BundleVoteManagerView { known_bundles: m.known_bundles.push((b.hash(), b)), ..m }
    } else {
        m
    }
}

/// The tally a vote would join: the pending list for its hash extended by
/// it, or a singleton list.
pub open spec fn new_tally(m: BundleVoteManagerView, v: BundleVoteView) -> Seq<BundleVoteView> {
    if has_key(m.known_bundle_votes, v.hash) {
        lookup(m.known_bundle_votes, v.hash).push(v)
    } else {
        seq![v]
    }
}

/// A vote is accepted when its signature recovers to a registered guard,
/// it agrees with the pending tally's (height, round), and no recorded
/// vote for that hash recovers to the same guard. Deduplication is by
/// recovered identity, not by signature bytes: a byte-identical
/// duplicate is the special case, and a malleated or re-signed vote by
/// the same guard is caught too, so one guard can never be counted
/// twice toward the quorum.
pub open spec fn vote_accepted(m: BundleVoteManagerView, v: BundleVoteView) -> bool {
    &&& vote_valid(m.guards, v)
    &&& has_key(m.known_bundle_votes, v.hash) ==> {
        let vs = lookup(m.known_bundle_votes, v.hash);
        &&& vs[0].height == v.height
        &&& vs[0].round == v.round
        &&& forall|a: int| 0 <= a < vs.len() ==> (#[trigger] vs[a]).signer() != v.signer()
    }
}

/// The certificate a vote submission yields: the whole tally, promoted,
/// exactly when the vote is accepted and its tally crosses the quorum.
pub open spec fn submit_vote_result(
    m: BundleVoteManagerView,
    v: BundleVoteView,
) -> Option<Bundle23VotesView> {
    if vote_accepted(m, v) && has_quorum(new_tally(m, v).len(), m.guards.len()) {
        Some(
            Bundle23VotesView {
                hash: v.hash,
                height: v.height,
                round: v.round,
                signatures: new_tally(m, v).map_values(|w: BundleVoteView| w.signature),
            },
        )
    } else {
        None
    }
}

/// State after a vote submission: a rejected vote changes nothing; an
/// accepted one either joins its tally or, at quorum, consumes it.
pub open spec fn submit_vote_post(
    m: BundleVoteManagerView,
    v: BundleVoteView,
) -> BundleVoteManagerView {
    if !vote_accepted(m, v) {
        m
    } else if has_quorum(new_tally(m, v).len(), m.guards.len()) {
        if has_key(m.known_bundle_votes, v.hash) {
            BundleVoteManagerView {
                known_bundle_votes: m.known_bundle_votes.remove(
                    key_idx(m.known_bundle_votes, v.hash),
                ),
                ..m
            }
        } else {
            m
        }
    } else {
        if has_key(m.known_bundle_votes, v.hash) {
            BundleVoteManagerView {
                known_bundle_votes: m.known_bundle_votes.update(
                    key_idx(m.known_bundle_votes, v.hash),
                    (v.hash, new_tally(m, v)),
                ),
                ..m
            }
        } else {
            BundleVoteManagerView {
                known_bundle_votes: m.known_bundle_votes.push((v.hash, seq![v])),
                ..m
            }
        }
    }
}

/// The pending tallies that survive an advance to `height`: exactly
/// those whose votes are at `height` or later. Older tallies can never
/// reach quorum again and are discarded to bound memory.
pub open spec fn live_tallies(
    entries: Seq<(Seq<u8>, Seq<BundleVoteView>)>,
    height: u64,
) -> Seq<(Seq<u8>, Seq<BundleVoteView>)> {
    entries.filter(|e: (Seq<u8>, Seq<BundleVoteView>)| e.1.len() > 0 && e.1[0].height >= height)
}

/// The pending bundles that survive an eviction: exactly those whose
/// hash still has a live tally. A candidate nobody currently votes for
/// is stale once the round advances; dropping it bounds memory, and a
/// resubmission is simply announced again.
pub open spec fn live_bundles(
    bundles: Seq<(Seq<u8>, SimmedBundleView)>,
    votes: Seq<(Seq<u8>, Seq<BundleVoteView>)>,
) -> Seq<(Seq<u8>, SimmedBundleView)> {
    bundles.filter(|e: (Seq<u8>, SimmedBundleView)| has_key(votes, e.0))
}

/// State after accepting an externally produced certificate. An invalid
/// certificate changes nothing, and so does a valid one whose pending
/// bundle has not arrived yet (a recoverable race: dropped, so that the
/// late bundle is still announced when it comes). A valid certificate
/// with its pending bundle present records the hash as finalized,
/// consumes the pending bundle, and retains the certificate paired with
/// that looked-up bundle — never the caller's pairing — exactly when its
/// score strictly exceeds the current best's.
pub open spec fn finalize_post(
    m: BundleVoteManagerView,
    b: Valid23BundleView,
) -> BundleVoteManagerView {
    if !cert_valid(m.guards, b.votes) {
        m
    } else {
        let h = b.votes.hash;
        if !has_key(m.known_bundles, h) {
            m
        } else {
            let underlying = lookup(m.known_bundles, h);
            let promoted = Valid23BundleView { votes: b.votes, bundle: underlying };
            let m2 = BundleVoteManagerView {
                known_23_bundles: if m.known_23_bundles.contains(h) {
                    m.known_23_bundles
                } else {
                    m.known_23_bundles.push(h)
                },
                known_bundles: m.known_bundles.remove(key_idx(m.known_bundles, h)),
                ..m
            };
            match m.best_bundle {
                None => BundleVoteManagerView { best_bundle: Some(promoted), ..m2 },
                Some(best) => if underlying.cumulative_lp_bribe
                    > best.bundle.cumulative_lp_bribe {
                    BundleVoteManagerView { best_bundle: Some(promoted), ..m2 }
                } else {
                    m2
                },
            }
        }
    }
}

/// Tracks all bundle votes so that the guards can reach consensus on the
/// best bundle for a height.
pub struct BundleVoteManager {
    best_bundle: Option<Valid23Bundle>,
    known_bundles: Vec<(Vec<u8>, SimmedBundle)>,
    known_bundle_votes: Vec<(Vec<u8>, Vec<BundleVote>)>,
    known_23_bundles: Vec<Vec<u8>>,
    guards: GuardSet,
}

impl View for BundleVoteManager {
    type V = BundleVoteManagerView;

    closed spec fn view(&self) -> BundleVoteManagerView {
        BundleVoteManagerView {
            best_bundle: match self.best_bundle {
                Some(b) => Some(b@),
                None => None,
            },
            known_bundles: bundle_entries_view(self.known_bundles@),
            known_bundle_votes: vote_entries_view(self.known_bundle_votes@),
            known_23_bundles: self.known_23_bundles@.map_values(|h: Vec<u8>| h@),
            guards: self.guards@,
        }
    }
}

impl Default for BundleVoteManager {
    /// An empty manager over an empty guard set.
    fn default() -> (r: Self)
        ensures
            r@.wf(),
            r@.best_bundle is None,
            r@.known_bundles.len() == 0,
            r@.known_bundle_votes.len() == 0,
            r@.known_23_bundles.len() == 0,
            r@.guards.len() == 0,
    {
        let r = BundleVoteManager {
            best_bundle: None,
            known_bundles: Vec::new(),
            known_bundle_votes: Vec::new(),
            known_23_bundles: Vec::new(),
            guards: GuardSet::empty(),
        };
        proof {
            assert(r@.known_bundles =~= Seq::<(Seq<u8>, SimmedBundleView)>::empty());
            assert(r@.known_bundle_votes =~= Seq::<(Seq<u8>, Seq<BundleVoteView>)>::empty());
            assert(r@.known_23_bundles =~= Seq::<Seq<u8>>::empty());
        }
        r
    }
}

impl BundleVoteManager {
    /// An empty manager over the given guard set.
    pub fn new(guards: GuardSet) -> (r: Self)
        requires
            guards.wf(),
        ensures
            r@.wf(),
            r@.best_bundle is None,
            r@.known_bundles.len() == 0,
            r@.known_bundle_votes.len() == 0,
            r@.known_23_bundles.len() == 0,
            r@.guards == guards@,
    {
        let r = BundleVoteManager {
            best_bundle: None,
            known_bundles: Vec::new(),
            known_bundle_votes: Vec::new(),
            known_23_bundles: Vec::new(),
            guards,
        };
        proof {
            assert(r@.known_bundles =~= Seq::<(Seq<u8>, SimmedBundleView)>::empty());
            assert(r@.known_bundle_votes =~= Seq::<(Seq<u8>, Seq<BundleVoteView>)>::empty());
            assert(r@.known_23_bundles =~= Seq::<Seq<u8>>::empty());
        }
        r
    }

    /// The retained best finalized bundle, if any.
    pub fn best_bundle(&self) -> (r: &Option<Valid23Bundle>)
        ensures
            match r {
                Some(b) => self@.best_bundle == Some(b@),
                None => self@.best_bundle is None,
            },
    {
        &self.best_bundle
    }

    /// Index of the pending-vote entry for `h`, if one exists.
    fn find_vote_entry(&self, h: &Vec<u8>) -> (r: Option<usize>)
        ensures
            match r {
                Some(i) => 0 <= i < self@.known_bundle_votes.len()
                    && self@.known_bundle_votes[i as int].0 == h@,
                None => !has_key(self@.known_bundle_votes, h@),
            },
    {
        let mut i: usize = 0;
        while i < self.known_bundle_votes.len()
            invariant
                i <= self@.known_bundle_votes.len(),
                self@.known_bundle_votes.len() == self.known_bundle_votes@.len(),
                forall|j: int| 0 <= j < i ==> (#[trigger] self@.known_bundle_votes[j]).0 != h@,
            decreases self.known_bundle_votes.len() - i,
        {
            if bytes_eq(&self.known_bundle_votes[i].0, h) {
                return Some(i);
            }
            i += 1;
        }
        None
    }

    /// Index of the pending-bundle entry for `h`, if one exists.
    fn find_bundle_entry(&self, h: &Vec<u8>) -> (r: Option<usize>)
        ensures
            match r {
                Some(i) => 0 <= i < self@.known_bundles.len()
                    && self@.known_bundles[i as int].0 == h@,
                None => !has_key(self@.known_bundles, h@),
            },
    {
        let mut i: usize = 0;
        while i < self.known_bundles.len()
            invariant
                i <= self@.known_bundles.len(),
                self@.known_bundles.len() == self.known_bundles@.len(),
                forall|j: int| 0 <= j < i ==> (#[trigger] self@.known_bundles[j]).0 != h@,
            decreases self.known_bundles.len() - i,
        {
            if bytes_eq(&self.known_bundles[i].0, h) {
                return Some(i);
            }
            i += 1;
        }
        None
    }

    /// True exactly when `h` is recorded as an already-finalized hash.
    fn contains_23(&self, h: &Vec<u8>) -> (r: bool)
        ensures
            r == self@.known_23_bundles.contains(h@),
    {
        let mut i: usize = 0;
        while i < self.known_23_bundles.len()
            invariant
                i <= self@.known_23_bundles.len(),
                self@.known_23_bundles.len() == self.known_23_bundles@.len(),
                forall|j: int| 0 <= j < i ==> #[trigger] self@.known_23_bundles[j] != h@,
            decreases self.known_23_bundles.len() - i,
        {
            if bytes_eq(&self.known_23_bundles[i], h) {
                proof {
                    assert(self@.known_23_bundles[i as int] == h@);
                }
                return true;
            }
            i += 1;
        }
        false
    }

    /// Registers a new candidate bundle keyed by its content hash.
    /// Returns a propagate instruction only the first time a hash is
    /// seen; a duplicate submission is silently absorbed.
    pub fn new_simmed_bundle(&mut self, bundle: SimmedBundle) -> (r: Option<BundleVoteMessage>)
        requires
            old(self)@.wf(),
        ensures
            final(self)@.wf(),
            final(self)@ == submit_bundle_post(old(self)@, bundle@),
            (r is Some) == (submit_bundle_msg(old(self)@, bundle@) is Some),
            match r {
                Some(msg) => msg matches BundleVoteMessage::SignAndPropagate(h)
                    && h@ == bundle@.hash(),
                None => true,
            },
    {
        let hash = bundle.hash();
        if self.contains_23(&hash) {
            return None;
        }
        if self.find_bundle_entry(&hash).is_some() {
            return None;
        }
        let key = hash.clone();
        self.known_bundles.push((key, bundle));
        proof {
            assert(self@.known_bundles =~= old(self)@.known_bundles.push(
                (hash@, bundle@),
            ));
            assert(self@ =~= submit_bundle_post(old(self)@, bundle@));
        }
        Some(BundleVoteMessage::SignAndPropagate(hash))
    }

    /// Checks a vote's signature: it must recover to a registered guard.
    fn verify_vote(guards: &GuardSet, vote: &BundleVote) -> (r: bool)
        ensures
            r == vote_valid(guards@, vote@),
    {
        let digest = compute_vote_digest(&vote.hash, vote.height, vote.round);
        match recover_signer(&digest, &vote.signature) {
            Some(pk) => guards.contains_key(&pk),
            None => false,
        }
    }

    /// Copies out the signatures of a tally, in tally order.
    fn collect_signatures(vs: &Vec<BundleVote>) -> (r: Vec<Vec<u8>>)
        ensures
            r@.map_values(|s: Vec<u8>| s@) == vs@.map_values(|v: BundleVote| v@).map_values(
                |w: BundleVoteView| w.signature,
            ),
    {
        let mut out: Vec<Vec<u8>> = Vec::new();
        let mut i: usize = 0;
        while i < vs.len()
            invariant
                i <= vs@.len(),
                out@.len() == i,
                forall|j: int| 0 <= j < i ==> (#[trigger] out@[j])@ == vs@[j]@.signature,
            decreases vs.len() - i,
        {
            out.push(vs[i].signature.clone());
            i += 1;
        }
        proof {
            assert(out@.map_values(|s: Vec<u8>| s@) =~= vs@.map_values(|v: BundleVote| v@)
                .map_values(|w: BundleVoteView| w.signature));
        }
        out
    }

    /// Promotes a tally into a 2/3 certificate exactly when it crosses
    /// the quorum; the certificate carries the tally's (hash, height,
    /// round) and its signatures in tally order.
    fn check_for_23(votes: &Vec<BundleVote>, guards: &GuardSet) -> (r: Option<Bundle23Votes>)
        requires
            votes@.len() >= 1,
        ensures
            (r is Some) == has_quorum(votes@.len(), guards@.len()),
            match r {
                Some(c) => c@.hash == votes@[0]@.hash && c@.height == votes@[0]@.height
                    && c@.round == votes@[0]@.round && c@.signatures == votes@.map_values(
                    |w: BundleVote| w@,
                ).map_values(|w: BundleVoteView| w.signature),
                None => true,
            },
    {
        let total_guards = guards.len();
        if !quorum_reached(votes.len(), total_guards) {
            return None;
        }
        let first = &votes[0];
        let signatures = Self::collect_signatures(votes);
        Some(Bundle23Votes::new(first.hash.clone(), first.height, first.round, signatures))
    }

    /// Submits one guard's vote. A vote whose signature does not recover
    /// to a registered guard, disagrees with its tally's (height, round),
    /// or recovers to a guard already counted in that tally is dropped:
    /// deduplication is by recovered identity, so one guard is never
    /// counted twice. Otherwise the vote joins its hash's tally, and the
    /// call returns the finalized certificate exactly when that tally
    /// crosses the two-thirds quorum, consuming the pending tally.
    pub fn new_bundle_vote(&mut self, vote: BundleVote) -> (r: Option<Bundle23Votes>)
        requires
            old(self)@.wf(),
        ensures
            final(self)@.wf(),
            final(self)@ == submit_vote_post(old(self)@, vote@),
            match r {
                Some(c) => submit_vote_result(old(self)@, vote@) == Some(c@),
                None => submit_vote_result(old(self)@, vote@) is None,
            },
    {
        proof {
            lemma_submit_vote_preserves_wf(old(self)@, vote@);
        }
        let ghost m = old(self)@;
        let ghost v = vote@;
        match self.find_vote_entry(&vote.hash) {
            None => {
                if !Self::verify_vote(&self.guards, &vote) {
                    return None;
                }
                let key = vote.hash.clone();
                let mut entry: Vec<BundleVote> = Vec::new();
                entry.push(vote);
                proof {
                    assert(entry@.map_values(|w: BundleVote| w@) =~= seq![v]);
                    assert(new_tally(m, v) =~= seq![v]);
                }
                match Self::check_for_23(&entry, &self.guards) {
                    Some(cert) => {
                        proof {
                            assert(cert@.signatures =~= new_tally(m, v).map_values(
                                |w: BundleVoteView| w.signature,
                            ));
                            assert(cert@ =~= submit_vote_result(m, v)->Some_0);
                            assert(self@ =~= submit_vote_post(m, v));
                        }
                        Some(cert)
                    },
                    None => {
                        self.known_bundle_votes.push((key, entry));
                        proof {
                            assert(self@.known_bundle_votes =~= m.known_bundle_votes.push(
                                (v.hash, seq![v]),
                            ));
                            assert(self@ =~= submit_vote_post(m, v));
                        }
                        None
                    },
                }
            },
            Some(i) => {
                proof {
                    lemma_key_idx_is(m.known_bundle_votes, i as int);
                }
                let first_height = self.known_bundle_votes[i].1[0].height;
                let first_round = self.known_bundle_votes[i].1[0].round;
                if first_height != vote.height || first_round != vote.round {
                    return None;
                }
                let digest = compute_vote_digest(&vote.hash, vote.height, vote.round);
                let pk = match recover_signer(&digest, &vote.signature) {
                    Some(pk) => pk,
                    None => {
                        return None;
                    },
                };
                if !self.guards.contains_key(&pk) {
                    return None;
                }
                let tally_len = self.known_bundle_votes[i].1.len();
                let mut j: usize = 0;
                while j < tally_len
                    invariant
                        j <= tally_len,
                        0 <= i < self.known_bundle_votes@.len(),
                        tally_len == self.known_bundle_votes@[i as int].1@.len(),
                        self@ == m,
                        vote@ == v,
                        m.wf(),
                        0 <= i < m.known_bundle_votes.len(),
                        m.known_bundle_votes[i as int].0 == v.hash,
                        has_key(m.known_bundle_votes, v.hash),
                        key_idx(m.known_bundle_votes, v.hash) == i,
                        m.known_bundle_votes[i as int].1[0].height == v.height,
                        m.known_bundle_votes[i as int].1[0].round == v.round,
                        digest@ == vote_digest(v.hash, v.height, v.round),
                        digest@.len() == 32,
                        v.signer() == Some(pk@),
                        m.guards.contains(pk@),
                        m.known_bundle_votes[i as int].1 == self.known_bundle_votes@[
                            i as int
                        ].1@.map_values(|w: BundleVote| w@),
                        forall|a: int| 0 <= a < j ==> (#[trigger] m.known_bundle_votes[
                            i as int
                        ].1[a]).signer() != v.signer(),
                    decreases tally_len - j,
                {
                    let ghost vs = m.known_bundle_votes[i as int].1;
                    proof {
                        // the recorded vote signs the same tuple, so its signer
                        // recovers over our digest and is known to exist
                        assert(m.tally_wf(m.known_bundle_votes[i as int].0, vs));
                        assert(vs[j as int].hash == v.hash);
                        assert(vs[j as int].height == v.height);
                        assert(vs[j as int].round == v.round);
                        assert(vote_valid(m.guards, vs[j as int]));
                        assert(vs[j as int].signer() == recovered_signer(
                            digest@,
                            vs[j as int].signature,
                        ));
                    }
                    let stored_pk = match recover_signer(
                        &digest,
                        &self.known_bundle_votes[i].1[j].signature,
                    ) {
                        Some(p) => p,
                        None => {
                            proof {
                                assert(false);
                            }
                            return None;
                        },
                    };
                    if bytes_eq(&stored_pk, &pk) {
                        proof {
                            assert(vs[j as int].signer() == Some(pk@));
                            assert(vs[j as int].signer() == v.signer());
                            assert(lookup(m.known_bundle_votes, v.hash) == vs);
                            assert(!vote_accepted(m, v));
                        }
                        return None;
                    }
                    j += 1;
                }
                proof {
                    assert(lookup(m.known_bundle_votes, v.hash) == m.known_bundle_votes[
                        i as int
                    ].1);
                    assert(vote_valid(m.guards, v));
                    assert(vote_accepted(m, v));
                }
                let (key, mut vs) = self.known_bundle_votes.remove(i);
                vs.push(vote);
                proof {
                    assert(vs@.map_values(|w: BundleVote| w@) =~= new_tally(m, v));
                    assert(vs@[0]@ == lookup(m.known_bundle_votes, v.hash)[0]);
                }
                match Self::check_for_23(&vs, &self.guards) {
                    Some(cert) => {
                        proof {
                            assert(self@.known_bundle_votes =~= m.known_bundle_votes.remove(
                                i as int,
                            ));
                            assert(self@ =~= submit_vote_post(m, v));
                            assert(cert@.signatures =~= new_tally(m, v).map_values(
                                |w: BundleVoteView| w.signature,
                            ));
                            assert(cert@ =~= submit_vote_result(m, v)->Some_0);
                        }
                        Some(cert)
                    },
                    None => {
                        self.known_bundle_votes.insert(i, (key, vs));
                        proof {
                            assert(self@.known_bundle_votes =~= m.known_bundle_votes.update(
                                i as int,
                                (v.hash, new_tally(m, v)),
                            ));
                            assert(self@ =~= submit_vote_post(m, v));
                        }
                        None
                    },
                }
            },
        }
    }

    /// Checks an externally produced certificate against the guard set:
    /// quorum, every signature recovering to a registered guard over the
    /// certificate's tuple, and the recovered identities pairwise
    /// distinct.
    fn verify_signatures(cert: &Bundle23Votes, guards: &GuardSet) -> (r: bool)
        ensures
            r == cert_valid(guards@, cert@),
    {
        if !quorum_reached(cert.signatures.len(), guards.len()) {
            return false;
        }
        let digest = compute_vote_digest(&cert.hash, cert.height, cert.round);
        let mut signers: Vec<Vec<u8>> = Vec::new();
        let mut i: usize = 0;
        while i < cert.signatures.len()
            invariant
                i <= cert.signatures@.len(),
                signers@.len() == i,
                digest@ == vote_digest(cert@.hash, cert@.height, cert@.round),
                digest@.len() == 32,
                forall|a: int| 0 <= a < i ==> recovered_signer(
                    vote_digest(cert@.hash, cert@.height, cert@.round),
                    #[trigger] cert@.signatures[a],
                ) == Some(signers@[a]@),
                forall|a: int| 0 <= a < i ==> guards@.contains((#[trigger] signers@[a])@),
                forall|a: int, b: int|
                    0 <= a < b < i ==> signers@[a]@ != signers@[b]@,
            decreases cert.signatures.len() - i,
        {
            proof {
                assert(cert@.signatures[i as int] == cert.signatures@[i as int]@);
            }
            let pk = match recover_signer(&digest, &cert.signatures[i]) {
                Some(pk) => pk,
                None => {
                    proof {
                        assert(recovered_signer(
                            vote_digest(cert@.hash, cert@.height, cert@.round),
                            cert@.signatures[i as int],
                        ) is None);
                        assert(!cert_valid(guards@, cert@));
                    }
                    return false;
                },
            };
            if !guards.contains_key(&pk) {
                proof {
                    assert(recovered_signer(
                        vote_digest(cert@.hash, cert@.height, cert@.round),
                        cert@.signatures[i as int],
                    ) == Some(pk@));
                    assert(!cert_valid(guards@, cert@));
                }
                return false;
            }
            let mut j: usize = 0;
            while j < i
                invariant
                    j <= i,
                    i < cert.signatures@.len(),
                    signers@.len() == i,
                    digest@ == vote_digest(cert@.hash, cert@.height, cert@.round),
                    recovered_signer(
                        vote_digest(cert@.hash, cert@.height, cert@.round),
                        cert@.signatures[i as int],
                    ) == Some(pk@),
                    cert@.signatures[i as int] == cert.signatures@[i as int]@,
                    forall|a: int| 0 <= a < i ==> recovered_signer(
                        vote_digest(cert@.hash, cert@.height, cert@.round),
                        #[trigger] cert@.signatures[a],
                    ) == Some(signers@[a]@),
                    forall|a: int| 0 <= a < j ==> (#[trigger] signers@[a])@ != pk@,
                decreases i - j,
            {
                if bytes_eq(&signers[j], &pk) {
                    proof {
                        assert(recovered_signer(
                            vote_digest(cert@.hash, cert@.height, cert@.round),
                            cert@.signatures[j as int],
                        ) == recovered_signer(
                            vote_digest(cert@.hash, cert@.height, cert@.round),
                            cert@.signatures[i as int],
                        ));
                        assert(!cert_valid(guards@, cert@));
                    }
                    return false;
                }
                j += 1;
            }
            signers.push(pk);
            i += 1;
        }
        proof {
            assert forall|a: int, b: int|
                0 <= a < b < cert@.signatures.len() implies recovered_signer(
                vote_digest(cert@.hash, cert@.height, cert@.round),
                #[trigger] cert@.signatures[a],
            ) != recovered_signer(
                vote_digest(cert@.hash, cert@.height, cert@.round),
                #[trigger] cert@.signatures[b],
            ) by {
                assert(recovered_signer(
                    vote_digest(cert@.hash, cert@.height, cert@.round),
                    cert@.signatures[a],
                ) == Some(signers@[a]@));
                assert(recovered_signer(
                    vote_digest(cert@.hash, cert@.height, cert@.round),
                    cert@.signatures[b],
                ) == Some(signers@[b]@));
            }
        }
        true
    }

    /// Accepts a finalized bundle with its certificate. An invalid
    /// certificate is dropped, and so is a valid one whose pending
    /// bundle has not arrived yet: that race is recoverable, and leaving
    /// the state untouched lets the late bundle still be announced.
    /// Otherwise the hash is recorded as finalized, the pending bundle
    /// is consumed, and the retained best becomes the certificate paired
    /// with that looked-up bundle — never the caller's pairing, whose
    /// attached bundle is unauthenticated — exactly when the looked-up
    /// score strictly exceeds the current best's.
    pub fn new_bundle23(&mut self, bundle: Valid23Bundle)
        requires
            old(self)@.wf(),
        ensures
            final(self)@.wf(),
            final(self)@ == finalize_post(old(self)@, bundle@),
    {
        proof {
            lemma_finalize_preserves_wf(old(self)@, bundle@);
        }
        let ghost m = old(self)@;
        if !Self::verify_signatures(&bundle.votes, &self.guards) {
            return;
        }
        match self.find_bundle_entry(&bundle.votes.hash) {
            None => {
                proof {
                    assert(self@ =~= finalize_post(m, bundle@));
                }
            },
            Some(i) => {
                proof {
                    lemma_key_idx_is(m.known_bundles, i as int);
                }
                if !self.contains_23(&bundle.votes.hash) {
                    let h = bundle.votes.hash.clone();
                    self.known_23_bundles.push(h);
                    proof {
                        assert(self@.known_23_bundles =~= m.known_23_bundles.push(
                            bundle@.votes.hash,
                        ));
                    }
                }
                let (_key, underlying) = self.known_bundles.remove(i);
                proof {
                    assert(self@.known_bundles =~= m.known_bundles.remove(i as int));
                }
                let replace = match &self.best_bundle {
                    None => true,
                    Some(best) => underlying.get_cumulative_lp_bribe()
                        > best.bundle.get_cumulative_lp_bribe(),
                };
                if replace {
                    self.best_bundle = Some(
                        Valid23Bundle { votes: bundle.votes, bundle: underlying },
                    );
                }
                proof {
                    assert(self@ =~= finalize_post(m, bundle@));
                }
            },
        }
    }

    /// The explicit eviction that bounds memory across round advances,
    /// meant to run on each height advance before new candidates are
    /// submitted. Every pending vote tally older than `height` is
    /// dropped — it can never reach quorum again — and then every
    /// pending bundle whose hash no longer has a live tally; survivors
    /// keep their order. A dropped candidate that is resubmitted is
    /// simply announced again.
    pub fn evict_stale(&mut self, height: u64)
        requires
            old(self)@.wf(),
        ensures
            final(self)@.wf(),
            final(self)@.known_bundle_votes == live_tallies(
                old(self)@.known_bundle_votes,
                height,
            ),
            final(self)@.known_bundles == live_bundles(
                old(self)@.known_bundles,
                live_tallies(old(self)@.known_bundle_votes, height),
            ),
            final(self)@.best_bundle == old(self)@.best_bundle,
            final(self)@.known_23_bundles == old(self)@.known_23_bundles,
            final(self)@.guards == old(self)@.guards,
    {
        let ghost m = old(self)@;
        let ghost orig = old(self)@.known_bundle_votes;
        let ghost pred = |e: (Seq<u8>, Seq<BundleVoteView>)| e.1.len() > 0 && e.1[0].height
            >= height;
        let mut kept: Vec<(Vec<u8>, Vec<BundleVote>)> = Vec::new();
        let ghost mut k: int = 0;
        proof {
            assert(orig.take(0) =~= Seq::<(Seq<u8>, Seq<BundleVoteView>)>::empty());
            assert(vote_entries_view(kept@) =~= orig.take(0).filter(pred));
            assert(vote_entries_view(kept@) + orig.skip(0) =~= orig);
            reveal_with_fuel(Seq::filter, 2);
        }
        while self.known_bundle_votes.len() > 0
            invariant
                m.wf(),
                orig == m.known_bundle_votes,
                0 <= k <= orig.len(),
                pred == (|e: (Seq<u8>, Seq<BundleVoteView>)| e.1.len() > 0 && e.1[0].height
                    >= height),
                self@.known_bundle_votes == orig.skip(k),
                self@.best_bundle == m.best_bundle,
                self@.known_bundles == m.known_bundles,
                self@.known_23_bundles == m.known_23_bundles,
                self@.guards == m.guards,
                vote_entries_view(kept@) == orig.take(k).filter(pred),
                distinct_keys(vote_entries_view(kept@) + orig.skip(k)),
                forall|a: int| 0 <= a < kept@.len() ==> m.tally_wf(
                    (#[trigger] vote_entries_view(kept@)[a]).0,
                    vote_entries_view(kept@)[a].1,
                ),
            decreases self.known_bundle_votes.len(),
        {
            proof {
                assert(orig.skip(k).len() > 0);
                assert(orig.skip(k)[0] == orig[k]);
                assert(orig.take(k + 1).drop_last() =~= orig.take(k));
                assert(orig.take(k + 1).last() == orig[k]);
                assert(orig.skip(k + 1) =~= orig.skip(k).drop_first());
                reveal_with_fuel(Seq::filter, 2);
            }
            let ghost kept_before = vote_entries_view(kept@);
            let entry = self.known_bundle_votes.remove(0);
            proof {
                assert(self@.known_bundle_votes =~= orig.skip(k + 1));
            }
            let keep_it = entry.1.len() > 0 && entry.1[0].height >= height;
            if keep_it {
                kept.push(entry);
                proof {
                    assert(vote_entries_view(kept@) =~= kept_before.push(orig[k]));
                    assert(vote_entries_view(kept@) =~= orig.take(k + 1).filter(pred));
                    assert(vote_entries_view(kept@) + orig.skip(k + 1) =~= (kept_before
                        + orig.skip(k)));
                    assert(m.known_bundle_votes[k] == orig[k]);
                    assert(m.tally_wf(m.known_bundle_votes[k].0, m.known_bundle_votes[k].1));
                }
            } else {
                proof {
                    assert(vote_entries_view(kept@) =~= orig.take(k + 1).filter(pred));
                    assert(kept_before + orig.skip(k + 1) =~= (kept_before + orig.skip(
                        k,
                    )).remove(kept_before.len() as int));
                    crate::assoc::lemma_distinct_keys_remove(
                        kept_before + orig.skip(k),
                        kept_before.len() as int,
                    );
                }
            }
            proof {
                k = k + 1;
            }
        }
        proof {
            assert(orig.skip(k).len() == 0);
            assert(k == orig.len());
            assert(orig.take(k) =~= orig);
            assert(vote_entries_view(kept@) + orig.skip(k) =~= vote_entries_view(kept@));
        }
        self.known_bundle_votes = kept;
        proof {
            assert(self@.known_bundle_votes == live_tallies(orig, height));
        }
        let ghost live = self@.known_bundle_votes;
        let ghost borig = m.known_bundles;
        let ghost bpred = |e: (Seq<u8>, SimmedBundleView)| has_key(live, e.0);
        let mut bkept: Vec<(Vec<u8>, SimmedBundle)> = Vec::new();
        let ghost mut t: int = 0;
        proof {
            assert(borig.take(0) =~= Seq::<(Seq<u8>, SimmedBundleView)>::empty());
            assert(bundle_entries_view(bkept@) =~= borig.take(0).filter(bpred));
            assert(bundle_entries_view(bkept@) + borig.skip(0) =~= borig);
            reveal_with_fuel(Seq::filter, 2);
        }
        while self.known_bundles.len() > 0
            invariant
                m.wf(),
                borig == m.known_bundles,
                0 <= t <= borig.len(),
                bpred == (|e: (Seq<u8>, SimmedBundleView)| has_key(live, e.0)),
                self@.known_bundles == borig.skip(t),
                self@.known_bundle_votes == live,
                live == live_tallies(m.known_bundle_votes, height),
                self@.best_bundle == m.best_bundle,
                self@.known_23_bundles == m.known_23_bundles,
                self@.guards == m.guards,
                final(self)@.wf() == final(self)@.wf(),
                distinct_keys(self@.known_bundle_votes),
                forall|a: int| 0 <= a < self@.known_bundle_votes.len() ==> self@.tally_wf(
                    (#[trigger] self@.known_bundle_votes[a]).0,
                    self@.known_bundle_votes[a].1,
                ),
                bundle_entries_view(bkept@) == borig.take(t).filter(bpred),
                distinct_keys(bundle_entries_view(bkept@) + borig.skip(t)),
                forall|a: int| 0 <= a < bkept@.len() ==> (#[trigger] bundle_entries_view(
                    bkept@,
                )[a]).1.hash() == bundle_entries_view(bkept@)[a].0,
            decreases self.known_bundles.len(),
        {
            proof {
                assert(borig.skip(t).len() > 0);
                assert(borig.skip(t)[0] == borig[t]);
                assert(borig.take(t + 1).drop_last() =~= borig.take(t));
                assert(borig.take(t + 1).last() == borig[t]);
                assert(borig.skip(t + 1) =~= borig.skip(t).drop_first());
                reveal_with_fuel(Seq::filter, 2);
            }
            let ghost bkept_before = bundle_entries_view(bkept@);
            let entry = self.known_bundles.remove(0);
            proof {
                assert(self@.known_bundles =~= borig.skip(t + 1));
            }
            let keep_it = self.find_vote_entry(&entry.0).is_some();
            if keep_it {
                bkept.push(entry);
                proof {
                    assert(bundle_entries_view(bkept@) =~= bkept_before.push(borig[t]));
                    assert(bundle_entries_view(bkept@) =~= borig.take(t + 1).filter(bpred));
                    assert(bundle_entries_view(bkept@) + borig.skip(t + 1) =~= (bkept_before
                        + borig.skip(t)));
                    assert(m.known_bundles[t] == borig[t]);
                    assert(m.known_bundles[t].1.hash() == m.known_bundles[t].0);
                }
            } else {
                proof {
                    assert(bundle_entries_view(bkept@) =~= borig.take(t + 1).filter(bpred));
                    assert(bkept_before + borig.skip(t + 1) =~= (bkept_before + borig.skip(
                        t,
                    )).remove(bkept_before.len() as int));
                    crate::assoc::lemma_distinct_keys_remove(
                        bkept_before + borig.skip(t),
                        bkept_before.len() as int,
                    );
                }
            }
            proof {
                t = t + 1;
            }
        }
        proof {
            assert(borig.skip(t).len() == 0);
            assert(t == borig.len());
            assert(borig.take(t) =~= borig);
            assert(bundle_entries_view(bkept@) + borig.skip(t) =~= bundle_entries_view(
                bkept@,
            ));
        }
        self.known_bundles = bkept;
        proof {
            assert(self@.known_bundles == live_bundles(borig, live));
        }
    }

    /// True exactly when a vote tally for this hash is already recorded
    /// (used to prevent re-signing).
    pub fn has_signed_bundle(&self, bundle_hash: &Vec<u8>) -> (r: bool)
        ensures
            r == has_key(self@.known_bundle_votes, bundle_hash@),
    {
        self.find_vote_entry(bundle_hash).is_some()
    }
}

/// An accepted vote preserves the manager invariant.
pub proof fn lemma_submit_vote_preserves_wf(m: BundleVoteManagerView, v: BundleVoteView)
    requires
        m.wf(),
    ensures
        submit_vote_post(m, v).wf(),
{
    let post = submit_vote_post(m, v);
    if vote_accepted(m, v) {
        if has_quorum(new_tally(m, v).len(), m.guards.len()) {
            if has_key(m.known_bundle_votes, v.hash) {
                let i = key_idx(m.known_bundle_votes, v.hash);
                assert forall|a: int| 0 <= a < post.known_bundle_votes.len() implies post
                    .tally_wf(
                    (#[trigger] post.known_bundle_votes[a]).0,
                    post.known_bundle_votes[a].1,
                ) by {
                    if a < i {
                        assert(post.known_bundle_votes[a] == m.known_bundle_votes[a]);
                    } else {
                        assert(post.known_bundle_votes[a] == m.known_bundle_votes[a + 1]);
                    }
                }
            }
        } else {
            if has_key(m.known_bundle_votes, v.hash) {
                let i = key_idx(m.known_bundle_votes, v.hash);
                let vs = lookup(m.known_bundle_votes, v.hash);
                let nt = new_tally(m, v);
                assert(m.tally_wf(m.known_bundle_votes[i].0, vs));
                assert forall|a: int| 0 <= a < post.known_bundle_votes.len() implies post
                    .tally_wf(
                    (#[trigger] post.known_bundle_votes[a]).0,
                    post.known_bundle_votes[a].1,
                ) by {
                    if a != i {
                        assert(post.known_bundle_votes[a] == m.known_bundle_votes[a]);
                        assert(m.tally_wf(m.known_bundle_votes[a].0, m.known_bundle_votes[a].1));
                    } else {
                        assert(post.known_bundle_votes[a] == (v.hash, nt));
                        assert forall|x: int| 0 <= x < nt.len() implies (#[trigger] nt[x]).hash
                            == v.hash && nt[x].height == nt[0].height && nt[x].round == nt[0]
                            .round && vote_valid(post.guards, nt[x]) by {
                            if x < vs.len() {
                                assert(nt[x] == vs[x]);
                            } else {
                                assert(nt[x] == v);
                            }
                            assert(vs[0].hash == v.hash);
                        }
                        assert forall|x: int, y: int| 0 <= x < y < nt.len() implies nt[x]
                            .signer() != nt[y].signer() by {
                            if y < vs.len() {
                                assert(nt[x] == vs[x] && nt[y] == vs[y]);
                            } else {
                                assert(nt[y] == v);
                                assert(nt[x] == vs[x]);
                            }
                        }
                    }
                }
                assert forall|a: int, b: int|
                    0 <= a < b < post.known_bundle_votes.len() implies (
                #[trigger] post.known_bundle_votes[a]).0 != (
                #[trigger] post.known_bundle_votes[b]).0 by {
                    assert(post.known_bundle_votes[a].0 == m.known_bundle_votes[a].0);
                    assert(post.known_bundle_votes[b].0 == m.known_bundle_votes[b].0);
                }
            } else {
                let nt = seq![v];
                assert forall|a: int| 0 <= a < post.known_bundle_votes.len() implies post
                    .tally_wf(
                    (#[trigger] post.known_bundle_votes[a]).0,
                    post.known_bundle_votes[a].1,
                ) by {
                    if a < m.known_bundle_votes.len() {
                        assert(post.known_bundle_votes[a] == m.known_bundle_votes[a]);
                    } else {
                        assert(post.known_bundle_votes[a] == (v.hash, nt));
                        assert(nt[0] == v);
                    }
                }
                assert forall|a: int, b: int|
                    0 <= a < b < post.known_bundle_votes.len() implies (
                #[trigger] post.known_bundle_votes[a]).0 != (
                #[trigger] post.known_bundle_votes[b]).0 by {
                    if b == m.known_bundle_votes.len() {
                        assert(post.known_bundle_votes[a] == m.known_bundle_votes[a]);
                        assert(!has_key(m.known_bundle_votes, v.hash));
                    }
                }
            }
        }
    }
}

/// Accepting a certificate preserves the manager invariant.
pub proof fn lemma_finalize_preserves_wf(m: BundleVoteManagerView, b: Valid23BundleView)
    requires
        m.wf(),
    ensures
        finalize_post(m, b).wf(),
{
    let post = finalize_post(m, b);
    if cert_valid(m.guards, b.votes) {
        let h = b.votes.hash;
        if has_key(m.known_bundles, h) {
            let i = key_idx(m.known_bundles, h);
            assert forall|a: int, c: int| 0 <= a < c < post.known_bundles.len() implies (
            #[trigger] post.known_bundles[a]).0 != (#[trigger] post.known_bundles[c]).0 by {
                if a < i {
                    assert(post.known_bundles[a] == m.known_bundles[a]);
                } else {
                    assert(post.known_bundles[a] == m.known_bundles[a + 1]);
                }
                if c < i {
                    assert(post.known_bundles[c] == m.known_bundles[c]);
                } else {
                    assert(post.known_bundles[c] == m.known_bundles[c + 1]);
                }
            }
            assert forall|a: int| 0 <= a < post.known_bundles.len() implies (
            #[trigger] post.known_bundles[a]).1.hash() == post.known_bundles[a].0 by {
                if a < i {
                    assert(post.known_bundles[a] == m.known_bundles[a]);
                } else {
                    assert(post.known_bundles[a] == m.known_bundles[a + 1]);
                }
            }
        }
    }
}

/// Submitting the same bundle twice returns a propagate instruction only
/// on the first submission: after any submission of `b`, a second
/// submission of `b` yields no instruction.
pub proof fn lemma_resubmit_is_silent(m: BundleVoteManagerView, b: SimmedBundleView)
    ensures
        submit_bundle_msg(submit_bundle_post(m, b), b) is None,
{
    let m1 = submit_bundle_post(m, b);
    if submit_bundle_msg(m, b) is Some {
        assert(m1.known_bundles[m.known_bundles.len() as int].0 == b.hash());
        assert(has_key(m1.known_bundles, b.hash()));
    }
}

/// Submitting a byte-identical duplicate vote signature never changes the
/// recorded tallies and never finalizes: on the same tuple it recovers
/// to the already-counted signer, on another tuple it is rejected
/// outright.
pub proof fn lemma_duplicate_signature_is_absorbed(
    m: BundleVoteManagerView,
    v: BundleVoteView,
    a: int,
)
    requires
        m.wf(),
        has_key(m.known_bundle_votes, v.hash),
        0 <= a < lookup(m.known_bundle_votes, v.hash).len(),
        lookup(m.known_bundle_votes, v.hash)[a].signature == v.signature,
    ensures
        submit_vote_post(m, v) == m,
        submit_vote_result(m, v) is None,
{
    let i = key_idx(m.known_bundle_votes, v.hash);
    let vs = lookup(m.known_bundle_votes, v.hash);
    assert(m.known_bundle_votes[i].0 == v.hash);
    assert(m.tally_wf(m.known_bundle_votes[i].0, vs));
    if vs[0].height == v.height && vs[0].round == v.round {
        assert(vs[a].hash == v.hash && vs[a].height == v.height && vs[a].round == v.round);
        assert(vs[a].signer() == v.signer());
        assert(!vote_accepted(m, v));
    } else {
        assert(!vote_accepted(m, v));
    }
}

/// No guard identity is ever counted twice in one tally: a further vote
/// whose signature recovers to an already-recorded signer is absorbed,
/// byte-identical or not.
pub proof fn lemma_second_vote_by_same_guard_is_absorbed(
    m: BundleVoteManagerView,
    v: BundleVoteView,
    a: int,
)
    requires
        m.wf(),
        has_key(m.known_bundle_votes, v.hash),
        0 <= a < lookup(m.known_bundle_votes, v.hash).len(),
        lookup(m.known_bundle_votes, v.hash)[a].signer() == v.signer(),
    ensures
        submit_vote_post(m, v) == m,
        submit_vote_result(m, v) is None,
{
    assert(!vote_accepted(m, v));
}

/// A vote submission yields a certificate if and only if the vote is
/// accepted (registered-guard signature, matching tuple, no signer
/// already counted) and its tally crosses the exact two-thirds quorum;
/// the certificate then carries that quorum of signatures recovering to
/// pairwise-distinct registered guard identities over the certificate's
/// own tuple.
pub proof fn lemma_finalization_iff_quorum(m: BundleVoteManagerView, v: BundleVoteView)
    requires
        m.wf(),
    ensures
        (submit_vote_result(m, v) is Some) == (vote_accepted(m, v) && has_quorum(
            new_tally(m, v).len(),
            m.guards.len(),
        )),
        match submit_vote_result(m, v) {
            Some(c) => {
                &&& c.hash == v.hash
                &&& c.height == v.height
                &&& c.round == v.round
                &&& has_quorum(c.signatures.len(), m.guards.len())
                &&& cert_valid(m.guards, c)
            },
            None => true,
        },
{
    if submit_vote_result(m, v) is Some {
        let c = submit_vote_result(m, v)->Some_0;
        let nt = new_tally(m, v);
        assert(c.signatures.len() == nt.len());
        if has_key(m.known_bundle_votes, v.hash) {
            let i = key_idx(m.known_bundle_votes, v.hash);
            let vs = lookup(m.known_bundle_votes, v.hash);
            assert(m.tally_wf(m.known_bundle_votes[i].0, vs));
            assert(m.known_bundle_votes[i].0 == v.hash);
            assert forall|x: int| 0 <= x < nt.len() implies (#[trigger] nt[x]).hash == v.hash
                && nt[x].height == v.height && nt[x].round == v.round && vote_valid(
                m.guards,
                nt[x],
            ) by {
                if x < vs.len() {
                    assert(nt[x] == vs[x]);
                    assert(vs[0].height == v.height && vs[0].round == v.round);
                } else {
                    assert(nt[x] == v);
                }
            }
            assert forall|x: int, y: int| 0 <= x < y < nt.len() implies nt[x].signer() != nt[
                y
            ].signer() by {
                if y < vs.len() {
                    assert(nt[x] == vs[x] && nt[y] == vs[y]);
                } else {
                    assert(nt[y] == v && nt[x] == vs[x]);
                }
            }
            assert forall|x: int| 0 <= x < c.signatures.len() implies match recovered_signer(
                vote_digest(c.hash, c.height, c.round),
                #[trigger] c.signatures[x],
            ) {
                Some(pk) => m.guards.contains(pk),
                None => false,
            } by {
                assert(c.signatures[x] == nt[x].signature);
                assert(vote_valid(m.guards, nt[x]));
                assert(nt[x].hash == c.hash && nt[x].height == c.height && nt[x].round == c
                    .round);
            }
            assert forall|x: int, y: int| 0 <= x < y < c.signatures.len() implies
                recovered_signer(
                    vote_digest(c.hash, c.height, c.round),
                    #[trigger] c.signatures[x],
                ) != recovered_signer(
                vote_digest(c.hash, c.height, c.round),
                #[trigger] c.signatures[y],
            ) by {
                assert(c.signatures[x] == nt[x].signature);
                assert(c.signatures[y] == nt[y].signature);
                assert(nt[x].hash == c.hash && nt[x].height == c.height && nt[x].round
                    == c.round);
                assert(nt[y].hash == c.hash && nt[y].height == c.height && nt[y].round
                    == c.round);
                assert(nt[x].signer() != nt[y].signer());
            }
        } else {
            assert(nt =~= seq![v]);
            assert(nt[0] == v);
            assert forall|x: int| 0 <= x < c.signatures.len() implies match recovered_signer(
                vote_digest(c.hash, c.height, c.round),
                #[trigger] c.signatures[x],
            ) {
                Some(pk) => m.guards.contains(pk),
                None => false,
            } by {
                assert(c.signatures[x] == nt[x].signature);
                assert(nt[x] == v);
            }
        }
    }
}

/// The retained best bundle is kept when an incoming finalized bundle
/// does not strictly improve on its profitability score (ties retain the
/// earlier one).
pub proof fn lemma_best_retained_without_improvement(
    m: BundleVoteManagerView,
    b: Valid23BundleView,
    ob: Valid23BundleView,
)
    requires
        m.wf(),
        m.best_bundle == Some(ob),
        has_key(m.known_bundles, b.votes.hash) ==> lookup(m.known_bundles, b.votes.hash)
            .cumulative_lp_bribe <= ob.bundle.cumulative_lp_bribe,
    ensures
        finalize_post(m, b).best_bundle == Some(ob),
{
}

/// The retained best bundle is replaced exactly by an incoming valid
/// certificate whose pending bundle carries a strictly higher
/// profitability score; what is retained is the certificate paired with
/// that pending bundle.
pub proof fn lemma_best_replaced_on_strict_improvement(
    m: BundleVoteManagerView,
    b: Valid23BundleView,
    ob: Valid23BundleView,
)
    requires
        m.wf(),
        m.best_bundle == Some(ob),
        cert_valid(m.guards, b.votes),
        has_key(m.known_bundles, b.votes.hash),
        lookup(m.known_bundles, b.votes.hash).cumulative_lp_bribe
            > ob.bundle.cumulative_lp_bribe,
    ensures
        finalize_post(m, b).best_bundle == Some(
            Valid23BundleView {
                votes: b.votes,
                bundle: lookup(m.known_bundles, b.votes.hash),
            },
        ),
{
}

/// Once a best bundle is retained, no accepted certificate can make the
/// retained score decrease: replacement happens only on strict
/// improvement, and what is stored is the looked-up pending bundle
/// whose score decided the replacement.
pub proof fn lemma_best_score_never_decreases(
    m: BundleVoteManagerView,
    b: Valid23BundleView,
    ob: Valid23BundleView,
)
    requires
        m.wf(),
        m.best_bundle == Some(ob),
    ensures
        finalize_post(m, b).best_bundle matches Some(nb) && nb.bundle.cumulative_lp_bribe
            >= ob.bundle.cumulative_lp_bribe,
{
}

} // verus!
