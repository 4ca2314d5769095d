//! The oracles that may confirm requests, feed by feed.

use crate::ids::same_hash;
use vstd::prelude::*;

verus! {

struct Sender {
    spec_id: [u8; 32],
    account: String,
}

/// The set of pairs of a feed and an oracle that may confirm requests for
/// it.
pub struct AuthorizedSenders {
    senders: Vec<Sender>,
}

spec fn pairs_of(senders: Seq<Sender>) -> Seq<(Seq<u8>, Seq<char>)> {
    senders.map_values(|s: Sender| (s.spec_id@, s.account@))
}

impl View for AuthorizedSenders {
    type V = Set<(Seq<u8>, Seq<char>)>;

    closed spec fn view(&self) -> Set<(Seq<u8>, Seq<char>)> {
        Set::new(|pair: (Seq<u8>, Seq<char>)| pairs_of(self.senders@).contains(pair))
    }
}

impl AuthorizedSenders {
    /// Nobody is authorized.
    pub fn new() -> (senders: Self)
        ensures
            senders@ == Set::<(Seq<u8>, Seq<char>)>::empty(),
    {
        let senders = AuthorizedSenders { senders: Vec::new() };
        assert(senders@ =~= Set::empty());
        senders
    }

    /// Whether `account` may confirm requests for the feed `spec_id`.
    pub fn is_authorized(&self, spec_id: &[u8; 32], account: &String) -> (authorized: bool)
        ensures
            authorized == self@.contains((spec_id@, account@)),
    {
        let ghost pairs = pairs_of(self.senders@);
        let mut i: usize = 0;
        while i < self.senders.len()
            invariant
                i <= self.senders@.len(),
                pairs == pairs_of(self.senders@),
                forall|k: int| 0 <= k < i ==> pairs[k] != (spec_id@, account@),
            decreases self.senders@.len() - i,
        {
            if same_hash(&self.senders[i].spec_id, spec_id) && self.senders[i].account == *account {
                assert(pairs[i as int] == (spec_id@, account@));
                return true;
            }
            i += 1;
        }
        false
    }

    /// Lets `account` confirm requests for the feed `spec_id`.
    pub fn authorize(&mut self, spec_id: [u8; 32], account: String)
        ensures
            final(self)@ == old(self)@.insert((spec_id@, account@)),
    {
        let ghost before = pairs_of(self.senders@);
        let ghost added = (spec_id@, account@);
        self.senders.push(Sender { spec_id, account });
        proof {
            let after = pairs_of(self.senders@);
            assert(after =~= before.push(added));
            assert forall|pair: (Seq<u8>, Seq<char>)| after.contains(pair) <==> (before.contains(
                pair,
            ) || pair == added) by {
                if before.contains(pair) {
                    let i = choose|i: int| 0 <= i < before.len() && before[i] == pair;
                    assert(after[i] == pair);
                }
                if pair == added {
                    assert(after[after.len() - 1] == pair);
                }
            }
            assert(self@ =~= old(self)@.insert(added));
        }
    }

    /// Stops `account` from confirming requests for the feed `spec_id`.
    pub fn revoke(&mut self, spec_id: &[u8; 32], account: &String)
        ensures
            final(self)@ == old(self)@.remove((spec_id@, account@)),
    {
        let ghost before = pairs_of(self.senders@);
        let ghost gone = (spec_id@, account@);
        let mut i: usize = 0;
        while i < self.senders.len()
            invariant
                i <= self.senders@.len(),
                gone == (spec_id@, account@),
                forall|k: int| 0 <= k < i ==> pairs_of(self.senders@)[k] != gone,
                forall|pair: (Seq<u8>, Seq<char>)|
                    pair != gone ==> (pairs_of(self.senders@).contains(pair) <==> before.contains(
                        pair,
                    )),
            decreases self.senders@.len() - i,
        {
            if same_hash(&self.senders[i].spec_id, spec_id) && self.senders[i].account == *account {
                let ghost prior = pairs_of(self.senders@);
                self.senders.remove(i);
                proof {
                    let after = pairs_of(self.senders@);
                    assert(after =~= prior.remove(i as int));
                    assert forall|pair: (Seq<u8>, Seq<char>)| pair != gone implies (after.contains(
                        pair,
                    ) <==> prior.contains(pair)) by {
                        if after.contains(pair) {
                            let k = choose|k: int| 0 <= k < after.len() && after[k] == pair;
                            if k < i {
                                assert(prior[k] == pair);
                            } else {
                                assert(prior[k + 1] == pair);
                            }
                        }
                        if prior.contains(pair) {
                            let k = choose|k: int| 0 <= k < prior.len() && prior[k] == pair;
                            assert(prior[i as int] == gone);
                            if k < i {
                                assert(after[k] == pair);
                            } else if k > i {
                                assert(after[k - 1] == pair);
                            }
                        }
                    }
                }
            } else {
                i += 1;
            }
        }
        proof {
            let after = pairs_of(self.senders@);
            assert(!after.contains(gone));
            assert(self@ =~= old(self)@.remove(gone));
        }
    }
}

} // verus!
