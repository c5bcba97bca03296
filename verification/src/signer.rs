//! This node's signing identity: wraps the private key, signs outgoing
//! votes and answers "is this identity me" checks.

use vstd::prelude::*;

use crate::bytes::bytes_eq;
use crate::crypto::{derive_pubkey, pubkey_of, sign_digest, signature_of};
use crate::types::{compute_vote_digest, vote_digest, BundleVote};

verus! {

/// Wraps this node's secret key together with the public identity derived
/// from it.
pub struct Signer {
    secret: Vec<u8>,
    public: Vec<u8>,
}

impl Signer {
    /// Well-formed: the stored identity is exactly the public key of the
    /// stored secret key.
    pub open spec fn wf(self) -> bool {
        &&& pubkey_of(self.spec_secret()) == Some(self.spec_public())
        &&& self.spec_public().len() == 33
    }

    /// The secret key bytes, for contracts only.
    pub closed spec fn spec_secret(self) -> Seq<u8> {
        self.secret@
    }

    /// The public identity, for contracts only.
    pub closed spec fn spec_public(self) -> Seq<u8> {
        self.public@
    }

    /// Builds a signer from 32 secret-key bytes; `None` exactly when the
    /// bytes are not a valid secret key.
    pub fn new(secret: Vec<u8>) -> (r: Option<Signer>)
        ensures
            (r is Some) == (pubkey_of(secret@) is Some),
            match r {
                Some(s) => s.wf() && s.spec_secret() == secret@
                    && pubkey_of(secret@) == Some(s.spec_public()),
                None => pubkey_of(secret@) is None,
            },
    {
        match derive_pubkey(&secret) {
            Some(public) => Some(Signer { secret, public }),
            None => None,
        }
    }

    /// This node's public identity.
    pub fn public_key(&self) -> (r: &Vec<u8>)
        ensures
            r@ == self.spec_public(),
    {
        &self.public
    }

    /// True exactly when `id` is this node's own identity.
    pub fn is_us(&self, id: &Vec<u8>) -> (r: bool)
        ensures
            r == (id@ == self.spec_public()),
    {
        bytes_eq(id, &self.public)
    }

    /// Signs a bundle vote for (hash, height, round) with this node's
    /// key; the vote's signature recovers to this node's own identity.
    pub fn sign_bundle_vote(&self, hash: &Vec<u8>, height: u64, round: u64) -> (r: BundleVote)
        requires
            self.wf(),
        ensures
            r@.hash == hash@,
            r@.height == height,
            r@.round == round,
            r@.signature == signature_of(self.spec_secret(), vote_digest(hash@, height, round)),
            r@.signer() == Some(self.spec_public()),
    {
        let digest = compute_vote_digest(hash, height, round);
        let signature = sign_digest(&self.secret, &digest).unwrap();
        BundleVote { hash: hash.clone(), height, round, signature }
    }
}

} // verus!
