//! Byzantine-evidence tracking: observes every verified vote and records
//! slashable evidence whenever one guard identity signs two conflicting
//! statements at the same (height, round). Punishment is decided outside
//! this core; the collector only accumulates and exposes the evidence.

use vstd::prelude::*;

use crate::types::{BundleVote, BundleVoteView};

verus! {

/// Why an observed artifact could not be processed.
#[derive(PartialEq, Eq, Structural, Clone, Copy, Debug)]
pub enum EvidenceError {
    /// The guard identity is not a 33-byte compressed key.
    MalformedIdentity,
}

/// Proof of one guard's conflicting signed statements: the identity and
/// the two conflicting votes.
pub struct Evidence {
    pub guard: Vec<u8>,
    pub first: BundleVote,
    pub second: BundleVote,
}

/// Mathematical image of an [`Evidence`] entry.
#[verifier::ext_equal]
pub struct EvidenceView {
    pub guard: Seq<u8>,
    pub first: BundleVoteView,
    pub second: BundleVoteView,
}

impl View for Evidence {
    type V = EvidenceView;

    open spec fn view(&self) -> EvidenceView {
        EvidenceView { guard: self.guard@, first: self.first@, second: self.second@ }
    }
}

/// Two observations conflict when the same guard voted at the same
/// (height, round) for two different bundle hashes.
pub open spec fn is_conflict(
    entry: (Seq<u8>, BundleVoteView),
    id: Seq<u8>,
    v: BundleVoteView,
) -> bool {
    &&& entry.0 == id
    &&& entry.1.height == v.height
    &&& entry.1.round == v.round
    &&& entry.1.hash != v.hash
}

/// Some already-observed vote conflicts with (id, v).
pub open spec fn has_conflict(
    observed: Seq<(Seq<u8>, BundleVoteView)>,
    id: Seq<u8>,
    v: BundleVoteView,
) -> bool {
    exists|k: int| 0 <= k < observed.len() && is_conflict(#[trigger] observed[k], id, v)
}

/// Mathematical state of the collector.
#[verifier::ext_equal]
pub struct EvidenceCollectorView {
    pub observed: Seq<(Seq<u8>, BundleVoteView)>,
    pub evidence: Seq<EvidenceView>,
}

/// Accumulates observations and the evidence entries they gave rise to.
pub struct EvidenceCollector {
    observed: Vec<(Vec<u8>, BundleVote)>,
    evidence: Vec<Evidence>,
}

impl View for EvidenceCollector {
    type V = EvidenceCollectorView;

    closed spec fn view(&self) -> EvidenceCollectorView {
        EvidenceCollectorView {
            observed: self.observed@.map_values(|p: (Vec<u8>, BundleVote)| (p.0@, p.1@)),
            evidence: self.evidence@.map_values(|e: Evidence| e@),
        }
    }
}

impl EvidenceCollector {
    /// An empty collector.
    pub fn new() -> (r: Self)
        ensures
            r@.observed.len() == 0,
            r@.evidence.len() == 0,
    {
        let r = EvidenceCollector { observed: Vec::new(), evidence: Vec::new() };
        proof {
            assert(r@.observed =~= Seq::<(Seq<u8>, BundleVoteView)>::empty());
            assert(r@.evidence =~= Seq::<EvidenceView>::empty());
        }
        r
    }

    /// How many evidence entries have accumulated.
    pub fn evidence_count(&self) -> (r: usize)
        ensures
            r == self@.evidence.len(),
    {
        self.evidence.len()
    }

    /// The accumulated evidence, for external slashing logic.
    pub fn evidence(&self) -> (r: &Vec<Evidence>)
        ensures
            r@.map_values(|e: Evidence| e@) == self@.evidence,
    {
        &self.evidence
    }

    /// Observes one verified vote attributed to `guard`. The observation
    /// is recorded; when an earlier observation by the same guard at the
    /// same (height, round) names a different hash, an evidence entry
    /// holding both votes is recorded too, and the call reports it.
    /// A malformed identity is refused.
    pub fn observe_vote(&mut self, guard: Vec<u8>, vote: BundleVote) -> (r: Result<
        bool,
        EvidenceError,
    >)
        ensures
            (r is Ok) == (guard@.len() == 33),
            match r {
                Ok(found) => {
                    &&& guard@.len() == 33
                    &&& final(self)@.observed == old(self)@.observed.push((guard@, vote@))
                    &&& found == has_conflict(old(self)@.observed, guard@, vote@)
                    &&& (found ==> exists|k: int|
                        0 <= k < old(self)@.observed.len() && is_conflict(
                            #[trigger] old(self)@.observed[k],
                            guard@,
                            vote@,
                        ) && final(self)@.evidence == old(self)@.evidence.push(
                            EvidenceView {
                                guard: guard@,
                                first: old(self)@.observed[k].1,
                                second: vote@,
                            },
                        ))
                    &&& (!found ==> final(self)@.evidence == old(self)@.evidence)
                },
                Err(e) => {
                    &&& e == EvidenceError::MalformedIdentity
                    &&& guard@.len() != 33
                    &&& final(self)@ == old(self)@
                },
            },
    {
        if guard.len() != 33 {
            return Err(EvidenceError::MalformedIdentity);
        }
        let ghost m = self@;
        let ghost g = guard@;
        let ghost vv = vote@;
        let mut found: Option<usize> = None;
        let mut k: usize = 0;
        while k < self.observed.len()
            invariant
                k <= self.observed@.len(),
                self@ == m,
                match found {
                    Some(f) => 0 <= f < k && is_conflict(m.observed[f as int], guard@, vote@),
                    None => forall|a: int|
                        0 <= a < k ==> !is_conflict(#[trigger] m.observed[a], guard@, vote@),
                },
            decreases self.observed.len() - k,
        {
            if found.is_none() {
                let same_guard = crate::bytes::bytes_eq(&self.observed[k].0, &guard);
                let entry_vote = &self.observed[k].1;
                if same_guard && entry_vote.height == vote.height && entry_vote.round
                    == vote.round && !crate::bytes::bytes_eq(&entry_vote.hash, &vote.hash) {
                    proof {
                        assert(is_conflict(m.observed[k as int], guard@, vote@));
                    }
                    found = Some(k);
                }
            }
            k += 1;
        }
        match found {
            Some(f) => {
                let first = self.observed[f].1.duplicate();
                let ev = Evidence { guard: guard.clone(), first, second: vote.duplicate() };
                self.evidence.push(ev);
                self.observed.push((guard, vote));
                proof {
                    assert(self@.observed =~= m.observed.push((g, vv)));
                    assert(self@.evidence =~= m.evidence.push(
                        EvidenceView { guard: g, first: m.observed[f as int].1, second: vv },
                    ));
                }
                Ok(true)
            },
            None => {
                self.observed.push((guard, vote));
                proof {
                    assert(self@.observed =~= m.observed.push((g, vv)));
                    assert(self@.evidence =~= m.evidence);
                }
                Ok(false)
            },
        }
    }
}

} // verus!
