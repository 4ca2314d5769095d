//! The fee schedule: what a request for a feed costs, and how many oracles
//! have to confirm it.

use crate::errors::LedgerError;
use crate::ids::same_hash;
use crate::store::{
    as_map, distinct_keys, has_key, lemma_as_map_dom, lemma_as_map_index, lemma_as_map_push,
    lemma_as_map_update, lemma_distinct_push,
};
use vstd::prelude::*;

verus! {

/// What the schedule holds for one feed.
#[derive(Clone, Copy, Debug, PartialEq, Eq, Structural)]
pub struct SpecPolicy {
    /// The least payment that a request for the feed has to bring.
    pub fee: u128,
    /// The number of confirmations asked for, as it was set.
    pub quorum: u64,
}

impl SpecPolicy {
    /// The number of confirmations that resolve a request: the quorum that
    /// was set, and one where none or zero was set.
    pub open spec fn threshold(self) -> u64 {
        if self.quorum == 0 {
            1
        } else {
            self.quorum
        }
    }
}

/// The fee of a feed in a schedule, if the schedule knows the feed.
pub open spec fn fee_in(schedule: Map<Seq<u8>, SpecPolicy>, spec_id: Seq<u8>) -> Option<u128> {
    if schedule.dom().contains(spec_id) {
        Some(schedule[spec_id].fee)
    } else {
        None
    }
}

/// The number of confirmations that resolve a request for a feed in a
/// schedule, if the schedule knows the feed.
pub open spec fn quorum_in(schedule: Map<Seq<u8>, SpecPolicy>, spec_id: Seq<u8>) -> Option<u64> {
    if schedule.dom().contains(spec_id) {
        Some(schedule[spec_id].threshold())
    } else {
        None
    }
}

struct FeeEntry {
    spec_id: [u8; 32],
    fee: u128,
    quorum: u64,
}

/// The fee schedule, a table from feed to policy.
pub struct FeeProvider {
    fees: Vec<FeeEntry>,
}

impl View for FeeProvider {
    type V = Map<Seq<u8>, SpecPolicy>;

    closed spec fn view(&self) -> Map<Seq<u8>, SpecPolicy> {
        as_map(self.pairs())
    }
}

impl FeeProvider {
    spec fn pairs(&self) -> Seq<(Seq<u8>, SpecPolicy)> {
        self.fees@.map_values(
            |e: FeeEntry| (e.spec_id@, SpecPolicy { fee: e.fee, quorum: e.quorum }),
        )
    }

    /// No feed has two entries.
    pub closed spec fn wf(&self) -> bool {
        distinct_keys(self.pairs())
    }

    /// The fee of a feed, if the schedule knows the feed.
    pub open spec fn fee_for(&self, spec_id: Seq<u8>) -> Option<u128> {
        fee_in(self@, spec_id)
    }

    /// The number of confirmations that resolve a request for a feed, if the
    /// schedule knows the feed.
    pub open spec fn quorum_for(&self, spec_id: Seq<u8>) -> Option<u64> {
        quorum_in(self@, spec_id)
    }

    /// An empty schedule.
    pub fn init() -> (schedule: Self)
        ensures
            schedule.wf(),
            schedule@ == Map::<Seq<u8>, SpecPolicy>::empty(),
    {
        let schedule = FeeProvider { fees: Vec::new() };
        assert(schedule.pairs() =~= Seq::empty());
        schedule
    }

    fn position(&self, spec_id: &[u8; 32]) -> (at: Option<usize>)
        ensures
            match at {
                Some(i) => i < self.fees@.len() && self.pairs()[i as int].0 == spec_id@,
                None => !has_key(self.pairs(), spec_id@),
            },
    {
        let mut i: usize = 0;
        while i < self.fees.len()
            invariant
                i <= self.fees@.len(),
                forall|k: int| 0 <= k < i ==> self.pairs()[k].0 != spec_id@,
            decreases self.fees@.len() - i,
        {
            if same_hash(&self.fees[i].spec_id, spec_id) {
                return Some(i);
            }
            i += 1;
        }
        None
    }

    /// Sets the fee of a feed. A feed that the schedule did not know enters
    /// it with no quorum set.
    pub fn set_fee(&mut self, spec_id: [u8; 32], new_fee: u128)
        requires
            old(self).wf(),
        ensures
            final(self).wf(),
            final(self)@ == old(self)@.insert(
                spec_id@,
                SpecPolicy {
                    fee: new_fee,
                    quorum: if old(self)@.dom().contains(spec_id@) {
                        old(self)@[spec_id@].quorum
                    } else {
                        0
                    },
                },
            ),
    {
        let ghost before = self.pairs();
        proof {
            lemma_as_map_dom(before, spec_id@);
        }
        match self.position(&spec_id) {
            Some(i) => {
                proof {
                    lemma_as_map_index(before, i as int);
                }
                self.fees[i].fee = new_fee;
                proof {
                    let policy = SpecPolicy { fee: new_fee, quorum: before[i as int].1.quorum };
                    assert(self.pairs() =~= before.update(i as int, (spec_id@, policy)));
                    lemma_as_map_update(before, i as int, policy);
                }
            },
            None => {
                self.fees.push(FeeEntry { spec_id, fee: new_fee, quorum: 0 });
                proof {
                    let policy = SpecPolicy { fee: new_fee, quorum: 0 };
                    assert(self.pairs() =~= before.push((spec_id@, policy)));
                    lemma_as_map_push(before, spec_id@, policy);
                    lemma_distinct_push(before, spec_id@, policy);
                }
            },
        }
    }

    /// Sets the quorum of a feed that the schedule knows, and fails with
    /// `InvalidSpec` for any other.
    pub fn set_quorum(&mut self, spec_id: [u8; 32], quorum: u64) -> (done: Result<(), LedgerError>)
        requires
            old(self).wf(),
        ensures
            final(self).wf(),
            old(self)@.dom().contains(spec_id@) ==> done == Ok::<(), LedgerError>(())
                && final(self)@ == old(self)@.insert(
                spec_id@,
                SpecPolicy { fee: old(self)@[spec_id@].fee, quorum },
            ),
            !old(self)@.dom().contains(spec_id@) ==> done == Err::<(), LedgerError>(
                LedgerError::InvalidSpec,
            ) && final(self)@ == old(self)@,
    {
        let ghost before = self.pairs();
        proof {
            lemma_as_map_dom(before, spec_id@);
        }
        match self.position(&spec_id) {
            Some(i) => {
                proof {
                    lemma_as_map_index(before, i as int);
                }
                self.fees[i].quorum = quorum;
                proof {
                    let policy = SpecPolicy { fee: before[i as int].1.fee, quorum };
                    assert(self.pairs() =~= before.update(i as int, (spec_id@, policy)));
                    lemma_as_map_update(before, i as int, policy);
                }
                Ok(())
            },
            None => Err(LedgerError::InvalidSpec),
        }
    }

    /// The policy of a feed, if the schedule knows the feed.
    pub fn policy(&self, spec_id: [u8; 32]) -> (policy: Option<SpecPolicy>)
        requires
            self.wf(),
        ensures
            policy == if self@.dom().contains(spec_id@) {
                Some(self@[spec_id@])
            } else {
                None
            },
    {
        proof {
            lemma_as_map_dom(self.pairs(), spec_id@);
        }
        match self.position(&spec_id) {
            Some(i) => {
                proof {
                    lemma_as_map_index(self.pairs(), i as int);
                }
                Some(SpecPolicy { fee: self.fees[i].fee, quorum: self.fees[i].quorum })
            },
            None => None,
        }
    }

    /// The fee of a feed, if the schedule knows the feed.
    pub fn get_fee(&self, spec_id: [u8; 32]) -> (fee: Option<u128>)
        requires
            self.wf(),
        ensures
            fee == self.fee_for(spec_id@),
    {
        match self.policy(spec_id) {
            Some(policy) => Some(policy.fee),
            None => None,
        }
    }

    /// The number of confirmations that resolve a request for a feed, if the
    /// schedule knows the feed: at least one.
    pub fn get_quorum(&self, spec_id: [u8; 32]) -> (quorum: Option<u64>)
        requires
            self.wf(),
        ensures
            quorum == self.quorum_for(spec_id@),
            quorum matches Some(q) ==> q >= 1,
    {
        match self.policy(spec_id) {
            Some(policy) => Some(
                if policy.quorum == 0 {
                    1
                } else {
                    policy.quorum
                },
            ),
            None => None,
        }
    }
}

} // verus!
