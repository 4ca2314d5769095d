//! The ledger: every request that was ever lodged, and the nonces of those
//! who lodged them.

use crate::authorized_senders::AuthorizedSenders;
use crate::client::fee_provider::{fee_in, quorum_in, FeeProvider, SpecPolicy};
use crate::errors::LedgerError;
use crate::ids::{block_timestamp, derive_request_id, encodable, request_id_of, same_bytes};
use crate::nonces::{next_in, NonceRegistry};
use crate::request::{Request, RequestModel};
use crate::settlement::{escrow, resolution, resolution_of, Resolution, Transfer, TransferModel};
use crate::store::{
    as_map, distinct_keys, has_key, lemma_as_map_dom, lemma_as_map_index, lemma_as_map_push,
    lemma_as_map_update, lemma_distinct_push,
};
use vstd::prelude::*;

verus! {

/// The deadline of a request lodged at `now` that is to stay open for
/// `delta`: `now + delta`, if `delta` is not zero and the sum is a time.
pub open spec fn deadline(now: u64, delta: u64) -> Option<u64> {
    if delta > 0 && now + delta <= u64::MAX {
        Some((now + delta) as u64)
    } else {
        None
    }
}

/// Whether `due` is what is due on `request`: the shares, the rest and the
/// word to the consumer if the request is resolved, and nothing if it is
/// not.
pub open spec fn pays(due: Option<Resolution>, request: RequestModel) -> bool {
    match due {
        Some(resolution) => resolution_of(request) == Some(resolution@),
        None => resolution_of(request) is None,
    }
}

/// What is due back when `request` is taken back: all of its payment, to
/// its sender.
pub open spec fn refund_of(request: RequestModel) -> TransferModel {
    TransferModel { to: request.sender, amount: request.payment }
}

/// What the ledger holds: the counters of the requesters, and the requests
/// by their identifiers.
pub struct LedgerModel {
    pub nonces: Map<Seq<char>, u128>,
    pub requests: Map<Seq<u8>, RequestModel>,
}

impl LedgerModel {
    /// A ledger on which nothing has happened.
    pub open spec fn empty() -> LedgerModel {
        LedgerModel { nonces: Map::empty(), requests: Map::empty() }
    }

    /// Every request is well formed and stands under its own identifier.
    pub open spec fn valid(self) -> bool {
        forall|id: Seq<u8>|
            self.requests.dom().contains(id) ==> (#[trigger] self.requests[id]).valid()
                && self.requests[id].id == id
    }

    /// Why the ledger turns down a new request that is to stand under `id`,
    /// if it does: in this order, the sender has no nonce left, the deadline
    /// is not a time after `now`, the schedule does not know the feed, the
    /// payment is below the fee, the identifier is taken, the payer cannot
    /// cover the payment.
    pub open spec fn lodge_error(
        self,
        id: Seq<u8>,
        now: u64,
        schedule: Map<Seq<u8>, SpecPolicy>,
        sender: Seq<char>,
        spec_id: Seq<u8>,
        payment: u128,
        delta: u64,
        available: u128,
    ) -> Option<LedgerError> {
        if next_in(self.nonces, sender) == u128::MAX {
            Some(LedgerError::NonceExhausted)
        } else if deadline(now, delta) is None {
            Some(LedgerError::InvalidExpiration)
        } else if fee_in(schedule, spec_id) is None {
            Some(LedgerError::InvalidSpec)
        } else if payment < fee_in(schedule, spec_id).unwrap() {
            Some(LedgerError::IllegalFee)
        } else if self.requests.dom().contains(id) {
            Some(LedgerError::DuplicateRequest)
        } else if payment > available {
            Some(LedgerError::InsufficientFunds)
        } else {
            None
        }
    }

    /// The ledger after a request of `sender` has been lodged under `id`:
    /// the request stands there as it was lodged, and the sender's counter
    /// has moved up by one.
    pub open spec fn lodged(
        self,
        id: Seq<u8>,
        now: u64,
        sender: Seq<char>,
        spec_id: Seq<u8>,
        data_version: u64,
        payment: u128,
        callback_contract: Seq<char>,
        callback_function_id: Seq<u8>,
        delta: u64,
    ) -> LedgerModel {
        LedgerModel {
            nonces: self.nonces.insert(sender, (next_in(self.nonces, sender) + 1) as u128),
            requests: self.requests.insert(
                id,
                RequestModel::fresh(
                    id,
                    sender,
                    spec_id,
                    data_version,
                    payment,
                    callback_contract,
                    callback_function_id,
                    (now + delta) as u64,
                ),
            ),
        }
    }

    /// Why the ledger turns down a new request, if it does: as
    /// `lodge_error` says of the identifier derived from the sender and its
    /// next nonce.
    pub open spec fn create_error(
        self,
        now: u64,
        schedule: Map<Seq<u8>, SpecPolicy>,
        sender: Seq<char>,
        spec_id: Seq<u8>,
        payment: u128,
        delta: u64,
        available: u128,
    ) -> Option<LedgerError> {
        self.lodge_error(
            request_id_of(sender, next_in(self.nonces, sender)),
            now,
            schedule,
            sender,
            spec_id,
            payment,
            delta,
            available,
        )
    }

    /// The ledger after `sender` has lodged a request: the request stands
    /// under the identifier derived from the sender and its next nonce, and
    /// the sender's counter has moved up by one.
    pub open spec fn created(
        self,
        now: u64,
        sender: Seq<char>,
        spec_id: Seq<u8>,
        data_version: u64,
        payment: u128,
        callback_contract: Seq<char>,
        callback_function_id: Seq<u8>,
        delta: u64,
    ) -> LedgerModel {
        self.lodged(
            request_id_of(sender, next_in(self.nonces, sender)),
            now,
            sender,
            spec_id,
            data_version,
            payment,
            callback_contract,
            callback_function_id,
            delta,
        )
    }

    /// Why the ledger turns down a confirmation, if it does: there is no
    /// such request, or the request turns it down.
    pub open spec fn confirm_error(
        self,
        now: u64,
        schedule: Map<Seq<u8>, SpecPolicy>,
        senders: Set<(Seq<u8>, Seq<char>)>,
        id: Seq<u8>,
        from: Seq<char>,
    ) -> Option<LedgerError> {
        if !self.requests.dom().contains(id) {
            Some(LedgerError::RequestNotFound)
        } else {
            let request = self.requests[id];
            request.confirm_error(
                now,
                from,
                senders.contains((request.spec_id, from)),
                quorum_in(schedule, request.spec_id),
            )
        }
    }

    /// The ledger after `from` has reported `data` on the request `id`.
    pub open spec fn confirmed(
        self,
        schedule: Map<Seq<u8>, SpecPolicy>,
        id: Seq<u8>,
        from: Seq<char>,
        data: u128,
    ) -> LedgerModel {
        let request = self.requests[id];
        LedgerModel {
            requests: self.requests.insert(
                id,
                request.confirmed(from, data, quorum_in(schedule, request.spec_id).unwrap()),
            ),
            ..self
        }
    }

    /// Why the ledger turns down a cancellation, if it does: there is no
    /// such request, or the request turns it down.
    pub open spec fn cancel_error(self, now: u64, id: Seq<u8>, caller: Seq<char>) -> Option<
        LedgerError,
    > {
        if !self.requests.dom().contains(id) {
            Some(LedgerError::RequestNotFound)
        } else {
            self.requests[id].cancel_error(now, caller)
        }
    }

    /// The ledger after the request `id` has been taken back.
    pub open spec fn cancelled(self, id: Seq<u8>) -> LedgerModel {
        LedgerModel { requests: self.requests.insert(id, self.requests[id].cancelled()), ..self }
    }
}

/// The ledger of requests.
pub struct ChainScore {
    nonces: NonceRegistry,
    requests: Vec<Request>,
}

impl View for ChainScore {
    type V = LedgerModel;

    closed spec fn view(&self) -> LedgerModel {
        LedgerModel { nonces: self.nonces@, requests: as_map(self.pairs()) }
    }
}

impl ChainScore {
    spec fn pairs(&self) -> Seq<(Seq<u8>, RequestModel)> {
        self.requests@.map_values(|r: Request| (r@.id, r@))
    }

    /// No requester has two counters, no identifier two requests, and every
    /// request is well formed.
    pub closed spec fn wf(&self) -> bool {
        &&& self.nonces.wf()
        &&& distinct_keys(self.pairs())
        &&& forall|i: int| 0 <= i < self.requests@.len() ==> (#[trigger] self.requests@[i]).wf()
    }

    /// A well-formed ledger holds a valid table.
    pub proof fn lemma_wf_valid(&self)
        requires
            self.wf(),
        ensures
            self@.valid(),
    {
        let pairs = self.pairs();
        assert forall|id: Seq<u8>| self@.requests.dom().contains(id) implies (
        #[trigger] self@.requests[id]).valid() && self@.requests[id].id == id by {
            lemma_as_map_dom(pairs, id);
            let i = choose|i: int| 0 <= i < pairs.len() && #[trigger] pairs[i].0 == id;
            lemma_as_map_index(pairs, i);
            assert(self.requests@[i].wf());
        }
    }

    /// A ledger on which nothing has happened.
    pub fn new() -> (ledger: Self)
        ensures
            ledger.wf(),
            ledger@ == LedgerModel::empty(),
    {
        let ledger = ChainScore { nonces: NonceRegistry::new(), requests: Vec::new() };
        assert(ledger.pairs() =~= Seq::empty());
        ledger
    }

    fn find(&self, id: &Vec<u8>) -> (at: Option<usize>)
        ensures
            match at {
                Some(i) => i < self.requests@.len() && self.pairs()[i as int].0 == id@,
                None => !has_key(self.pairs(), id@),
            },
    {
        let mut i: usize = 0;
        while i < self.requests.len()
            invariant
                i <= self.requests@.len(),
                forall|k: int| 0 <= k < i ==> self.pairs()[k].0 != id@,
            decreases self.requests@.len() - i,
        {
            if same_bytes(self.requests[i].id(), id) {
                return Some(i);
            }
            i += 1;
        }
        None
    }

    /// The request that stands under `id`, if there is one.
    pub fn request(&self, id: &Vec<u8>) -> (found: Option<&Request>)
        requires
            self.wf(),
        ensures
            found is Some <==> self@.requests.dom().contains(id@),
            found matches Some(request) ==> request@ == self@.requests[id@] && request.wf(),
    {
        proof {
            lemma_as_map_dom(self.pairs(), id@);
        }
        match self.find(id) {
            Some(i) => {
                proof {
                    lemma_as_map_index(self.pairs(), i as int);
                }
                Some(&self.requests[i])
            },
            None => None,
        }
    }

    /// The nonce that `account` is issued with its next request.
    pub fn next_nonce_of(&self, account: &String) -> (nonce: u128)
        requires
            self.wf(),
        ensures
            nonce == next_in(self@.nonces, account@),
    {
        self.nonces.peek(account)
    }

    /// Lodges a request of `sender` under the identifier `id` at the time
    /// `now`, to stay open for `cancel_expiration_delta`. `schedule` gives
    /// the fee of the feed, and `available` is what the payer can put in
    /// escrow. A request that is turned down leaves the ledger as it was: no
    /// nonce is used and nothing is held.
    pub fn lodge(
        &mut self,
        id: Vec<u8>,
        now: u64,
        schedule: &FeeProvider,
        sender: String,
        spec_id: [u8; 32],
        data_version: u64,
        payment: u128,
        callback_contract: String,
        callback_function_id: Vec<u8>,
        cancel_expiration_delta: u64,
        available: u128,
    ) -> (outcome: Result<(), LedgerError>)
        requires
            old(self).wf(),
            schedule.wf(),
            id@.len() <= u32::MAX,
        ensures
            final(self).wf(),
            final(self)@.valid(),
            match outcome {
                Ok(_) => old(self)@.lodge_error(
                    id@,
                    now,
                    schedule@,
                    sender@,
                    spec_id@,
                    payment,
                    cancel_expiration_delta,
                    available,
                ) is None && final(self)@ == old(self)@.lodged(
                    id@,
                    now,
                    sender@,
                    spec_id@,
                    data_version,
                    payment,
                    callback_contract@,
                    callback_function_id@,
                    cancel_expiration_delta,
                ),
                Err(e) => old(self)@.lodge_error(
                    id@,
                    now,
                    schedule@,
                    sender@,
                    spec_id@,
                    payment,
                    cancel_expiration_delta,
                    available,
                ) == Some(e) && final(self)@ == old(self)@,
            },
    {
        proof {
            self.lemma_wf_valid();
            lemma_as_map_dom(self.pairs(), id@);
        }
        if self.nonces.peek(&sender) == u128::MAX {
            return Err(LedgerError::NonceExhausted);
        }
        if cancel_expiration_delta == 0 || cancel_expiration_delta > u64::MAX - now {
            return Err(LedgerError::InvalidExpiration);
        }
        let cancel_expiration = now + cancel_expiration_delta;
        let fee = match schedule.get_fee(spec_id) {
            Some(fee) => fee,
            None => {
                return Err(LedgerError::InvalidSpec);
            },
        };
        if payment < fee {
            return Err(LedgerError::IllegalFee);
        }
        if self.find(&id).is_some() {
            return Err(LedgerError::DuplicateRequest);
        }
        if escrow(payment, available).is_err() {
            return Err(LedgerError::InsufficientFunds);
        }
        let ghost before = self.pairs();
        let request = Request::lodged(
            id,
            sender,
            spec_id,
            data_version,
            payment,
            callback_contract,
            callback_function_id,
            cancel_expiration,
        );
        self.nonces.next_nonce(request.sender());
        self.requests.push(request);
        proof {
            assert(self.pairs() =~= before.push((request@.id, request@)));
            lemma_as_map_push(before, request@.id, request@);
            lemma_distinct_push(before, request@.id, request@);
            self.lemma_wf_valid();
        }
        Ok(())
    }

    /// Lodges a request of `sender` at the time `now`, under the identifier
    /// derived from the sender and its next nonce, and returns that
    /// identifier. See `lodge`.
    pub fn create_at(
        &mut self,
        now: u64,
        schedule: &FeeProvider,
        sender: String,
        spec_id: [u8; 32],
        data_version: u64,
        payment: u128,
        callback_contract: String,
        callback_function_id: Vec<u8>,
        cancel_expiration_delta: u64,
        available: u128,
    ) -> (outcome: Result<Vec<u8>, LedgerError>)
        requires
            old(self).wf(),
            schedule.wf(),
            encodable(sender@),
        ensures
            final(self).wf(),
            final(self)@.valid(),
            match outcome {
                Ok(id) => old(self)@.create_error(
                    now,
                    schedule@,
                    sender@,
                    spec_id@,
                    payment,
                    cancel_expiration_delta,
                    available,
                ) is None && final(self)@ == old(self)@.created(
                    now,
                    sender@,
                    spec_id@,
                    data_version,
                    payment,
                    callback_contract@,
                    callback_function_id@,
                    cancel_expiration_delta,
                ) && id@ == request_id_of(sender@, next_in(old(self)@.nonces, sender@)),
                Err(e) => old(self)@.create_error(
                    now,
                    schedule@,
                    sender@,
                    spec_id@,
                    payment,
                    cancel_expiration_delta,
                    available,
                ) == Some(e) && final(self)@ == old(self)@,
            },
    {
        let nonce = self.nonces.peek(&sender);
        let id = derive_request_id(&sender, nonce);
        let handle = id.clone();
        assert(handle@ == id@);
        match self.lodge(
            id,
            now,
            schedule,
            sender,
            spec_id,
            data_version,
            payment,
            callback_contract,
            callback_function_id,
            cancel_expiration_delta,
            available,
        ) {
            Ok(_) => Ok(handle),
            Err(e) => Err(e),
        }
    }

    /// Lodges a request of `sender` at the time of the current block. See
    /// `create_at`.
    pub fn create(
        &mut self,
        schedule: &FeeProvider,
        sender: String,
        spec_id: [u8; 32],
        data_version: u64,
        payment: u128,
        callback_contract: String,
        callback_function_id: Vec<u8>,
        cancel_expiration_delta: u64,
        available: u128,
    ) -> (outcome: Result<Vec<u8>, LedgerError>)
        requires
            old(self).wf(),
            schedule.wf(),
            encodable(sender@),
        ensures
            final(self).wf(),
            final(self)@.valid(),
            exists|now: u64|
                match outcome {
                    Ok(id) => #[trigger] old(self)@.create_error(
                        now,
                        schedule@,
                        sender@,
                        spec_id@,
                        payment,
                        cancel_expiration_delta,
                        available,
                    ) is None && final(self)@ == old(self)@.created(
                        now,
                        sender@,
                        spec_id@,
                        data_version,
                        payment,
                        callback_contract@,
                        callback_function_id@,
                        cancel_expiration_delta,
                    ) && id@ == request_id_of(sender@, next_in(old(self)@.nonces, sender@)),
                    Err(e) => old(self)@.create_error(
                        now,
                        schedule@,
                        sender@,
                        spec_id@,
                        payment,
                        cancel_expiration_delta,
                        available,
                    ) == Some(e) && final(self)@ == old(self)@,
                },
    {
        let now = block_timestamp();
        self.create_at(
            now,
            schedule,
            sender,
            spec_id,
            data_version,
            payment,
            callback_contract,
            callback_function_id,
            cancel_expiration_delta,
            available,
        )
    }

    /// Takes a report of `data` by the oracle `from` on the request
    /// `request_id` at the time `now`. `senders` says who may confirm,
    /// `schedule` how many confirmations the feed asks for. Returns what is
    /// due if this confirmation settles the request, and `None` if more are
    /// needed. A confirmation that is turned down leaves the ledger
    /// as it was.
    pub fn confirm_at(
        &mut self,
        now: u64,
        schedule: &FeeProvider,
        senders: &AuthorizedSenders,
        request_id: &Vec<u8>,
        from: String,
        data: u128,
    ) -> (outcome: Result<Option<Resolution>, LedgerError>)
        requires
            old(self).wf(),
            schedule.wf(),
            encodable(from@),
        ensures
            final(self).wf(),
            final(self)@.valid(),
            match outcome {
                Ok(settled) => old(self)@.confirm_error(
                    now,
                    schedule@,
                    senders@,
                    request_id@,
                    from@,
                ) is None && final(self)@ == old(self)@.confirmed(
                    schedule@,
                    request_id@,
                    from@,
                    data,
                ) && pays(settled, final(self)@.requests[request_id@]),
                Err(e) => old(self)@.confirm_error(now, schedule@, senders@, request_id@, from@)
                    == Some(e) && final(self)@ == old(self)@,
            },
    {
        proof {
            self.lemma_wf_valid();
            lemma_as_map_dom(self.pairs(), request_id@);
        }
        let i = match self.find(request_id) {
            Some(i) => i,
            None => {
                return Err(LedgerError::RequestNotFound);
            },
        };
        let ghost before = self.pairs();
        proof {
            lemma_as_map_index(before, i as int);
        }
        let spec_id = self.requests[i].spec_id();
        let authorized = senders.is_authorized(&spec_id, &from);
        let quorum = schedule.get_quorum(spec_id);
        let outcome = self.requests[i].confirm_at(now, from, data, authorized, quorum);
        proof {
            let after = self.requests@[i as int]@;
            assert(after.id == before[i as int].0);
            assert(self.pairs() =~= before.update(i as int, (before[i as int].0, after)));
            lemma_as_map_update(before, i as int, after);
            if outcome is Err {
                assert(self.pairs() =~= before);
            }
            self.lemma_wf_valid();
        }
        match outcome {
            Ok(_) => Ok(resolution(&self.requests[i])),
            Err(e) => Err(e),
        }
    }

    /// Takes a report of `data` by the oracle `from` on the request
    /// `request_id` at the time of the current block. See `confirm_at`.
    pub fn confirm(
        &mut self,
        schedule: &FeeProvider,
        senders: &AuthorizedSenders,
        request_id: &Vec<u8>,
        from: String,
        data: u128,
    ) -> (outcome: Result<Option<Resolution>, LedgerError>)
        requires
            old(self).wf(),
            schedule.wf(),
            encodable(from@),
        ensures
            final(self).wf(),
            final(self)@.valid(),
            exists|now: u64|
                match outcome {
                    Ok(settled) => #[trigger] old(self)@.confirm_error(
                        now,
                        schedule@,
                        senders@,
                        request_id@,
                        from@,
                    ) is None && final(self)@ == old(self)@.confirmed(
                        schedule@,
                        request_id@,
                        from@,
                        data,
                    ) && pays(settled, final(self)@.requests[request_id@]),
                    Err(e) => old(self)@.confirm_error(
                        now,
                        schedule@,
                        senders@,
                        request_id@,
                        from@,
                    ) == Some(e) && final(self)@ == old(self)@,
                },
    {
        let now = block_timestamp();
        self.confirm_at(now, schedule, senders, request_id, from, data)
    }

    /// Takes the request `request_id` back for `caller` at the time `now`,
    /// and returns what is due back: all of the payment, to the sender. A
    /// cancellation that is turned down leaves the ledger as it was.
    pub fn cancel_at(&mut self, now: u64, request_id: &Vec<u8>, caller: &String) -> (outcome:
        Result<Transfer, LedgerError>)
        requires
            old(self).wf(),
        ensures
            final(self).wf(),
            final(self)@.valid(),
            match outcome {
                Ok(refund) => old(self)@.cancel_error(now, request_id@, caller@) is None && final(self)@ == old(self)@.cancelled(request_id@) && refund@ == refund_of(old(self)@.requests[request_id@]),
                Err(e) => old(self)@.cancel_error(now, request_id@, caller@) == Some(e) && final(self)@ == old(self)@,
            },
    {
        proof {
            self.lemma_wf_valid();
            lemma_as_map_dom(self.pairs(), request_id@);
        }
        let i = match self.find(request_id) {
            Some(i) => i,
            None => {
                return Err(LedgerError::RequestNotFound);
            },
        };
        let ghost before = self.pairs();
        proof {
            lemma_as_map_index(before, i as int);
        }
        let outcome = self.requests[i].cancel_at(now, caller);
        proof {
            let after = self.requests@[i as int]@;
            assert(after.id == before[i as int].0);
            assert(self.pairs() =~= before.update(i as int, (before[i as int].0, after)));
            lemma_as_map_update(before, i as int, after);
            if outcome is Err {
                assert(self.pairs() =~= before);
            }
            self.lemma_wf_valid();
        }
        match outcome {
            Ok(amount) => Ok(Transfer { to: self.requests[i].sender().clone(), amount }),
            Err(e) => Err(e),
        }
    }

    /// Takes the request `request_id` back for `caller` at the time of the
    /// current block. See `cancel_at`.
    pub fn cancel(&mut self, request_id: &Vec<u8>, caller: &String) -> (outcome: Result<
        Transfer,
        LedgerError,
    >)
        requires
            old(self).wf(),
        ensures
            final(self).wf(),
            final(self)@.valid(),
            exists|now: u64|
                match outcome {
                    Ok(refund) => #[trigger] old(self)@.cancel_error(now, request_id@, caller@)
                        is None && final(self)@ == old(self)@.cancelled(request_id@) && refund@ == refund_of(old(self)@.requests[request_id@]),
                    Err(e) => old(self)@.cancel_error(now, request_id@, caller@) == Some(e)
                        && final(self)@ == old(self)@,
                },
    {
        let now = block_timestamp();
        self.cancel_at(now, request_id, caller)
    }
}

} // verus!
