//! Data types of the consensus core: candidate bundles, signed bundle
//! votes, 2/3 certificates, and the canonical byte encoding that vote
//! signatures are made over.

use vstd::prelude::*;

use crate::bytes::{push_u64_be, u64_be_bytes};
use crate::crypto::{keccak256, keccak256_of, recovered_signer};

verus! {

/// An opaque candidate execution payload plus its cumulative profitability
/// score ("cumulative LP bribe"). Its identity is the keccak-256 hash of
/// the raw payload.
pub struct SimmedBundle {
    pub raw: Vec<u8>,
    pub cumulative_lp_bribe: u128,
}

/// Mathematical image of a [`SimmedBundle`].
#[verifier::ext_equal]
pub struct SimmedBundleView {
    pub raw: Seq<u8>,
    pub cumulative_lp_bribe: u128,
}

impl View for SimmedBundle {
    type V = SimmedBundleView;

    open spec fn view(&self) -> SimmedBundleView {
        SimmedBundleView { raw: self.raw@, cumulative_lp_bribe: self.cumulative_lp_bribe }
    }
}

impl SimmedBundleView {
    /// The content hash that identifies this bundle.
    pub open spec fn hash(self) -> Seq<u8> {
        keccak256_of(self.raw)
    }
}

impl SimmedBundle {
    /// The bundle's profitability score.
    pub fn get_cumulative_lp_bribe(&self) -> (r: u128)
        ensures
            r == self@.cumulative_lp_bribe,
    {
        self.cumulative_lp_bribe
    }

    /// Derives the content hash of the raw payload.
    pub fn hash(&self) -> (r: Vec<u8>)
        ensures
            r@ == self@.hash(),
            r@.len() == 32,
    {
        keccak256(&self.raw)
    }
}

/// A single guard's signed vote for a bundle: the bundle's content hash,
/// the height and round it votes at, and a recoverable signature over the
/// canonical encoding of those three fields.
pub struct BundleVote {
    pub hash: Vec<u8>,
    pub height: u64,
    pub round: u64,
    pub signature: Vec<u8>,
}

/// Mathematical image of a [`BundleVote`].
#[verifier::ext_equal]
pub struct BundleVoteView {
    pub hash: Seq<u8>,
    pub height: u64,
    pub round: u64,
    pub signature: Seq<u8>,
}

impl View for BundleVote {
    type V = BundleVoteView;

    open spec fn view(&self) -> BundleVoteView {
        BundleVoteView {
            hash: self.hash@,
            height: self.height,
            round: self.round,
            signature: self.signature@,
        }
    }
}

impl BundleVote {
    /// A field-for-field copy of the vote.
    pub fn duplicate(&self) -> (r: BundleVote)
        ensures
            r@ == self@,
    {
        BundleVote {
            hash: self.hash.clone(),
            height: self.height,
            round: self.round,
            signature: self.signature.clone(),
        }
    }
}

/// The canonical byte encoding a vote signature is made over: the 32-byte
/// bundle hash, then the height and the round, each in big-endian.
pub open spec fn vote_payload(hash: Seq<u8>, height: u64, round: u64) -> Seq<u8> {
    hash + u64_be_bytes(height) + u64_be_bytes(round)
}

/// The 32-byte digest that is actually signed: keccak-256 of the canonical
/// vote payload.
pub open spec fn vote_digest(hash: Seq<u8>, height: u64, round: u64) -> Seq<u8> {
    keccak256_of(vote_payload(hash, height, round))
}

impl BundleVoteView {
    /// The guard identity (compressed public key) this vote's signature
    /// recovers to, if any.
    pub open spec fn signer(self) -> Option<Seq<u8>> {
        recovered_signer(vote_digest(self.hash, self.height, self.round), self.signature)
    }
}

/// Builds the canonical vote payload for (hash, height, round).
pub fn encode_vote_payload(hash: &Vec<u8>, height: u64, round: u64) -> (r: Vec<u8>)
    ensures
        r@ == vote_payload(hash@, height, round),
{
    let mut out: Vec<u8> = Vec::new();
    let mut i: usize = 0;
    while i < hash.len()
        invariant
            i <= hash.len(),
            out@ == hash@.subrange(0, i as int),
        decreases hash.len() - i,
    {
        out.push(hash[i]);
        proof {
            assert(out@ =~= hash@.subrange(0, i + 1 as int));
        }
        i += 1;
    }
    proof {
        assert(out@ =~= hash@);
    }
    push_u64_be(&mut out, height);
    push_u64_be(&mut out, round);
    out
}

/// Computes the signed digest for a vote over (hash, height, round).
pub fn compute_vote_digest(hash: &Vec<u8>, height: u64, round: u64) -> (r: Vec<u8>)
    ensures
        r@ == vote_digest(hash@, height, round),
        r@.len() == 32,
{
    let payload = encode_vote_payload(hash, height, round);
    keccak256(&payload)
}

/// A 2/3 certificate: proof that strictly more than two thirds of the
/// guard set attested to one bundle at one (height, round).
pub struct Bundle23Votes {
    pub hash: Vec<u8>,
    pub height: u64,
    pub round: u64,
    pub signatures: Vec<Vec<u8>>,
}

/// Mathematical image of a [`Bundle23Votes`].
#[verifier::ext_equal]
pub struct Bundle23VotesView {
    pub hash: Seq<u8>,
    pub height: u64,
    pub round: u64,
    pub signatures: Seq<Seq<u8>>,
}

impl View for Bundle23Votes {
    type V = Bundle23VotesView;

    open spec fn view(&self) -> Bundle23VotesView {
        Bundle23VotesView {
            hash: self.hash@,
            height: self.height,
            round: self.round,
            signatures: self.signatures@.map_values(|s: Vec<u8>| s@),
        }
    }
}

impl Bundle23Votes {
    /// Assembles a certificate from its fields.
    pub fn new(hash: Vec<u8>, height: u64, round: u64, signatures: Vec<Vec<u8>>) -> (r: Self)
        ensures
            r@.hash == hash@,
            r@.height == height,
            r@.round == round,
            r@.signatures == signatures@.map_values(|s: Vec<u8>| s@),
    {
        Bundle23Votes { hash, height, round, signatures }
    }
}

/// A certificate paired with the bundle it finalizes.
pub struct Valid23Bundle {
    pub votes: Bundle23Votes,
    pub bundle: SimmedBundle,
}

/// Mathematical image of a [`Valid23Bundle`].
#[verifier::ext_equal]
pub struct Valid23BundleView {
    pub votes: Bundle23VotesView,
    pub bundle: SimmedBundleView,
}

impl View for Valid23Bundle {
    type V = Valid23BundleView;

    open spec fn view(&self) -> Valid23BundleView {
        Valid23BundleView { votes: self.votes@, bundle: self.bundle@ }
    }
}

} // verus!
