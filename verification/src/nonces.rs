//! The nonce registry: one counter per requester, which only ever goes up.

use crate::store::{
    as_map, distinct_keys, has_key, lemma_as_map_dom, lemma_as_map_index, lemma_as_map_push,
    lemma_as_map_update, lemma_distinct_push,
};
use vstd::prelude::*;

verus! {

struct NonceEntry {
    account: String,
    next: u128,
}

/// The nonce to issue next where nothing was issued yet.
pub const FIRST_NONCE: u128 = 0;

/// The next nonce of a requester in a table of counters: what the table
/// holds, and the first nonce for a requester that it does not know.
pub open spec fn next_in(counters: Map<Seq<char>, u128>, account: Seq<char>) -> u128 {
    if counters.dom().contains(account) {
        counters[account]
    } else {
        FIRST_NONCE
    }
}

/// The counters of all requesters. Its view is the table of the counters
/// that have moved.
pub struct NonceRegistry {
    entries: Vec<NonceEntry>,
}

impl View for NonceRegistry {
    type V = Map<Seq<char>, u128>;

    closed spec fn view(&self) -> Map<Seq<char>, u128> {
        as_map(self.pairs())
    }
}

impl NonceRegistry {
    spec fn pairs(&self) -> Seq<(Seq<char>, u128)> {
        self.entries@.map_values(|e: NonceEntry| (e.account@, e.next))
    }

    /// No requester has two counters.
    pub closed spec fn wf(&self) -> bool {
        distinct_keys(self.pairs())
    }

    /// The nonce that `account` is issued next.
    pub open spec fn next(&self, account: Seq<char>) -> u128 {
        next_in(self@, account)
    }

    /// A registry in which no counter has moved.
    pub fn new() -> (registry: Self)
        ensures
            registry.wf(),
            registry@ == Map::<Seq<char>, u128>::empty(),
    {
        let registry = NonceRegistry { entries: Vec::new() };
        assert(registry.pairs() =~= Seq::empty());
        registry
    }

    fn position(&self, account: &String) -> (at: Option<usize>)
        ensures
            match at {
                Some(i) => i < self.entries@.len() && self.pairs()[i as int].0 == account@,
                None => !has_key(self.pairs(), account@),
            },
    {
        let mut i: usize = 0;
        while i < self.entries.len()
            invariant
                i <= self.entries@.len(),
                forall|k: int| 0 <= k < i ==> self.pairs()[k].0 != account@,
            decreases self.entries@.len() - i,
        {
            if self.entries[i].account == *account {
                return Some(i);
            }
            i += 1;
        }
        None
    }

    /// The nonce that `account` is issued next, without issuing it.
    pub fn peek(&self, account: &String) -> (nonce: u128)
        requires
            self.wf(),
        ensures
            nonce == self.next(account@),
    {
        proof {
            lemma_as_map_dom(self.pairs(), account@);
        }
        match self.position(account) {
            Some(i) => {
                proof {
                    lemma_as_map_index(self.pairs(), i as int);
                }
                self.entries[i].next
            },
            None => FIRST_NONCE,
        }
    }

    /// Issues the next nonce of `account` and moves its counter up by one.
    /// Issues nothing, and changes nothing, once the counter stands at
    /// `u128::MAX`.
    pub fn next_nonce(&mut self, account: &String) -> (nonce: Option<u128>)
        requires
            old(self).wf(),
        ensures
            final(self).wf(),
            old(self).next(account@) < u128::MAX ==> nonce == Some(old(self).next(account@))
                && final(self)@ == old(self)@.insert(
                account@,
                (old(self).next(account@) + 1) as u128,
            ),
            old(self).next(account@) == u128::MAX ==> nonce.is_none() && final(self)@ == old(self)@,
    {
        let ghost before = self.pairs();
        proof {
            lemma_as_map_dom(before, account@);
        }
        match self.position(account) {
            Some(i) => {
                proof {
                    lemma_as_map_index(before, i as int);
                }
                let issued = self.entries[i].next;
                if issued == u128::MAX {
                    return None;
                }
                self.entries[i].next = issued + 1;
                proof {
                    assert(self.pairs() =~= before.update(
                        i as int,
                        (account@, (issued + 1) as u128),
                    ));
                    lemma_as_map_update(before, i as int, (issued + 1) as u128);
                }
                Some(issued)
            },
            None => {
                self.entries.push(NonceEntry { account: account.clone(), next: FIRST_NONCE + 1 });
                proof {
                    assert(self.pairs() =~= before.push((account@, (FIRST_NONCE + 1) as u128)));
                    lemma_as_map_push(before, account@, (FIRST_NONCE + 1) as u128);
                    lemma_distinct_push(before, account@, (FIRST_NONCE + 1) as u128);
                }
                Some(FIRST_NONCE)
            },
        }
    }
}

} // verus!
