//! The guard set: the ordered registry of validator identities
//! (compressed public keys) that every verification step and the leader
//! rotation consult.

use vstd::prelude::*;

use crate::bytes::bytes_eq;
use crate::crypto::{derive_pubkey, pubkey_of, random_secret_key};

verus! {

/// Ordered registry of guard identities. Stable within a consensus epoch;
/// its ordering fixes the round-robin leader rotation.
pub struct GuardSet {
    members: Vec<Vec<u8>>,
}

impl View for GuardSet {
    type V = Seq<Seq<u8>>;

    closed spec fn view(&self) -> Seq<Seq<u8>> {
        self.members@.map_values(|m: Vec<u8>| m@)
    }
}

/// Well-formedness of a guard registry: every identity is a 33-byte
/// compressed key and no identity appears twice.
pub open spec fn guards_wf(gs: Seq<Seq<u8>>) -> bool {
    &&& forall|i: int| 0 <= i < gs.len() ==> (#[trigger] gs[i]).len() == 33
    &&& forall|i: int, j: int| 0 <= i < j < gs.len() ==> gs[i] != gs[j]
}

impl GuardSet {
    /// Well-formed: see [`guards_wf`].
    pub open spec fn wf(self) -> bool {
        guards_wf(self@)
    }

    /// An empty guard set.
    pub fn empty() -> (r: Self)
        ensures
            r.wf(),
            r@.len() == 0,
    {
        let r = GuardSet { members: Vec::new() };
        proof {
            assert(r@ =~= Seq::<Seq<u8>>::empty());
        }
        r
    }

    /// The number of guards.
    pub fn len(&self) -> (r: usize)
        ensures
            r == self@.len(),
    {
        self.members.len()
    }

    /// True exactly when `id` is a registered guard identity.
    pub fn contains_key(&self, id: &Vec<u8>) -> (r: bool)
        ensures
            r == self@.contains(id@),
    {
        let mut i: usize = 0;
        while i < self.members.len()
            invariant
                i <= self.members.len(),
                forall|j: int| 0 <= j < i ==> self@[j] != id@,
            decreases self.members.len() - i,
        {
            if bytes_eq(&self.members[i], id) {
                proof {
                    assert(self@[i as int] == id@);
                }
                return true;
            }
            i += 1;
        }
        false
    }

    /// Adds a new guard identity; refused when the key is malformed or
    /// already registered. Membership changes are rare and administrative.
    pub fn add_guard(&mut self, id: Vec<u8>) -> (r: bool)
        requires
            old(self).wf(),
        ensures
            final(self).wf(),
            r == (id@.len() == 33 && !old(self)@.contains(id@)),
            r ==> final(self)@ == old(self)@.push(id@),
            !r ==> final(self)@ == old(self)@,
    {
        if id.len() != 32 + 1 {
            return false;
        }
        if self.contains_key(&id) {
            return false;
        }
        proof {
            assert((self@.push(id@))[self@.len() as int] == id@);
        }
        self.members.push(id);
        proof {
            assert(self@ =~= old(self)@.push(id@));
        }
        true
    }

    /// Removes a guard identity, keeping the others in order; reports
    /// whether the identity was registered. Membership changes are rare
    /// and administrative.
    pub fn remove_guard(&mut self, id: &Vec<u8>) -> (r: bool)
        requires
            old(self).wf(),
        ensures
            final(self).wf(),
            r == old(self)@.contains(id@),
            r ==> exists|k: int|
                0 <= k < old(self)@.len() && old(self)@[k] == id@ && final(self)@ == old(
                    self,
                )@.remove(k),
            !r ==> final(self)@ == old(self)@,
    {
        let ghost orig = self@;
        let mut i: usize = 0;
        while i < self.members.len()
            invariant
                i <= self.members@.len(),
                self@ == orig,
                orig.len() == self.members@.len(),
                old(self).wf(),
                self@ == old(self)@,
                forall|j: int| 0 <= j < i ==> self@[j] != id@,
            decreases self.members.len() - i,
        {
            if bytes_eq(&self.members[i], id) {
                proof {
                    assert(orig[i as int] == id@);
                }
                self.members.remove(i);
                proof {
                    assert(self@ =~= orig.remove(i as int));
                    let post = self@;
                    assert forall|a: int, b: int| 0 <= a < b < post.len() implies post[a]
                        != post[b] by {
                        if a < i {
                            assert(post[a] == orig[a]);
                        } else {
                            assert(post[a] == orig[a + 1]);
                        }
                        if b < i {
                            assert(post[b] == orig[b]);
                        } else {
                            assert(post[b] == orig[b + 1]);
                        }
                    }
                    assert forall|a: int| 0 <= a < post.len() implies (#[trigger] post[a]).len()
                        == 33 by {
                        if a < i {
                            assert(post[a] == orig[a]);
                        } else {
                            assert(post[a] == orig[a + 1]);
                        }
                    }
                }
                return true;
            }
            i += 1;
        }
        false
    }

    /// The round-robin leader for a height: the guard at index
    /// `height mod N` in the registry's ordering. `None` only for an empty
    /// guard set. A pure function of the height and the guard ordering, so
    /// all guards agree on the leader without communication.
    pub fn leader_for_height(&self, height: u64) -> (r: Option<Vec<u8>>)
        ensures
            match r {
                Some(id) => self@.len() > 0 && id@ == self@[(height as int) % (self@.len() as int)],
                None => self@.len() == 0,
            },
    {
        if self.members.len() == 0 {
            return None;
        }
        let idx: usize = (height % (self.members.len() as u64)) as usize;
        Some(self.members[idx].clone())
    }
}

/// Generates `number_nodes` fresh guard key pairs, each a compressed
/// public key with its 32-byte secret key. The keys come from the
/// process's entropy source, so only their shape and mutual consistency
/// are stated.
pub fn generate_node_keys(number_nodes: u64) -> (r: Vec<(Vec<u8>, Vec<u8>)>)
    ensures
        r@.len() == number_nodes,
        forall|i: int| 0 <= i < r@.len() ==> {
            &&& pubkey_of((#[trigger] r@[i]).1@) == Some(r@[i].0@)
            &&& r@[i].0@.len() == 33
            &&& r@[i].1@.len() == 32
        },
{
    let mut out: Vec<(Vec<u8>, Vec<u8>)> = Vec::new();
    let mut n: u64 = 0;
    while n < number_nodes
        invariant
            n <= number_nodes,
            out@.len() == n,
            forall|i: int| 0 <= i < out@.len() ==> {
                &&& pubkey_of((#[trigger] out@[i]).1@) == Some(out@[i].0@)
                &&& out@[i].0@.len() == 33
                &&& out@[i].1@.len() == 32
            },
        decreases number_nodes - n,
    {
        let sk = random_secret_key();
        let pk = derive_pubkey(&sk).unwrap();
        out.push((pk, sk));
        n += 1;
    }
    out
}

} // verus!
