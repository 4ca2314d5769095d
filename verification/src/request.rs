//! A request, the confirmations it has gathered, and the steps it can take.

use crate::aggregator::{aggregate, lower_median, quorum_reached};
use crate::errors::LedgerError;
use crate::ids::{
    block_timestamp, confirmation_id_of, derive_confirmation_id, derive_request_id, encodable,
    request_id_of,
};
use vstd::prelude::*;

verus! {

/// Where a request stands.
#[derive(Clone, Copy, Debug, PartialEq, Eq, Structural)]
pub enum RequestState {
    /// Lodged, not yet confirmed by anyone.
    Created,
    /// Confirmed by at least one oracle, short of the quorum.
    Confirming,
    /// Settled with a final value.
    Resolved,
    /// Taken back by its sender after the deadline.
    Cancelled,
    /// Closed at the deadline without a cancellation. No step of a request
    /// leads here; a request found in this state is closed like any other.
    Expired,
}

impl RequestState {
    /// Whether the request has come to an end.
    pub open spec fn spec_is_terminal(self) -> bool {
        self is Resolved || self is Cancelled || self is Expired
    }

    /// Whether the request has come to an end.
    #[verifier::when_used_as_spec(spec_is_terminal)]
    pub fn is_terminal(self) -> (terminal: bool)
        ensures
            terminal == self.spec_is_terminal(),
    {
        match self {
            RequestState::Created => false,
            RequestState::Confirming => false,
            RequestState::Resolved => true,
            RequestState::Cancelled => true,
            RequestState::Expired => true,
        }
    }
}

/// What a confirmation says.
pub struct ConfirmationModel {
    pub confirmation_id: Seq<u8>,
    pub from: Seq<char>,
    pub data: u128,
}

/// The report of one oracle on one request.
pub struct Confirmation {
    confirmation_id: Vec<u8>,
    from: String,
    data: u128,
}

impl View for Confirmation {
    type V = ConfirmationModel;

    closed spec fn view(&self) -> ConfirmationModel {
        ConfirmationModel {
            confirmation_id: self.confirmation_id@,
            from: self.from@,
            data: self.data,
        }
    }
}

impl Confirmation {
    /// The confirmation by which `from` reports `data` on the request
    /// `request_id`.
    pub fn new(request_id: &Vec<u8>, from: String, data: u128) -> (confirmation: Self)
        requires
            request_id@.len() <= u32::MAX,
            encodable(from@),
        ensures
            confirmation@ == (ConfirmationModel {
                confirmation_id: confirmation_id_of(request_id@, from@),
                from: from@,
                data,
            }),
    {
        let confirmation_id = derive_confirmation_id(request_id, &from);
        Confirmation { confirmation_id, from, data }
    }

    /// The identifier of this confirmation.
    pub fn confirmation_id(&self) -> (id: &Vec<u8>)
        ensures
            id@ == self@.confirmation_id,
    {
        &self.confirmation_id
    }

    /// The oracle that reports.
    pub fn from(&self) -> (from: &String)
        ensures
            from@ == self@.from,
    {
        &self.from
    }

    /// The value that it reports.
    pub fn data(&self) -> (data: u128)
        ensures
            data == self@.data,
    {
        self.data
    }
}

/// What each of the confirmations says.
pub open spec fn models_of(confirmations: Seq<Confirmation>) -> Seq<ConfirmationModel> {
    confirmations.map_values(|c: Confirmation| c@)
}

/// The values that the confirmations report, in their order.
pub open spec fn data_of(confirmations: Seq<ConfirmationModel>) -> Seq<u128> {
    confirmations.map_values(|c: ConfirmationModel| c.data)
}

/// Whether `who` is among those who confirmed.
pub open spec fn confirmed_by(confirmations: Seq<ConfirmationModel>, who: Seq<char>) -> bool {
    exists|i: int| 0 <= i < confirmations.len() && #[trigger] confirmations[i].from == who
}

/// What a request holds.
pub struct RequestModel {
    pub id: Seq<u8>,
    pub sender: Seq<char>,
    pub spec_id: Seq<u8>,
    pub data_version: u64,
    pub payment: u128,
    pub callback_contract: Seq<char>,
    pub callback_function_id: Seq<u8>,
    pub cancel_expiration: u64,
    pub confirmations: Seq<ConfirmationModel>,
    pub final_data: Option<u128>,
    pub state: RequestState,
}

impl RequestModel {
    /// What holds of every request: its state goes with the number of its
    /// confirmations, it has a final value exactly when it is resolved, and
    /// that value is the lower median of what was reported; no oracle has
    /// confirmed twice; each confirmation carries the identifier derived
    /// from this request and its oracle.
    pub open spec fn valid(self) -> bool {
        &&& self.state is Created ==> self.confirmations.len() == 0
        &&& self.state is Confirming ==> self.confirmations.len() > 0
        &&& self.state is Resolved ==> self.confirmations.len() > 0 && self.final_data == Some(
            lower_median(data_of(self.confirmations)),
        )
        &&& !(self.state is Resolved) ==> self.final_data is None
        &&& forall|i: int, j: int|
            0 <= i < j < self.confirmations.len() ==> self.confirmations[i].from
                != self.confirmations[j].from
        &&& forall|i: int|
            0 <= i < self.confirmations.len() ==> (#[trigger] self.confirmations[i]).confirmation_id
                == confirmation_id_of(self.id, self.confirmations[i].from)
    }

    /// A request as it is lodged.
    pub open spec fn fresh(
        id: Seq<u8>,
        sender: Seq<char>,
        spec_id: Seq<u8>,
        data_version: u64,
        payment: u128,
        callback_contract: Seq<char>,
        callback_function_id: Seq<u8>,
        cancel_expiration: u64,
    ) -> RequestModel {
        RequestModel {
            id,
            sender,
            spec_id,
            data_version,
            payment,
            callback_contract,
            callback_function_id,
            cancel_expiration,
            confirmations: Seq::empty(),
            final_data: None,
            state: RequestState::Created,
        }
    }

    /// The confirmation that `from` gives to this request when it reports
    /// `data`.
    pub open spec fn confirmation(self, from: Seq<char>, data: u128) -> ConfirmationModel {
        ConfirmationModel { confirmation_id: confirmation_id_of(self.id, from), from, data }
    }

    /// This request with one more confirmation.
    pub open spec fn with_confirmation(self, confirmation: ConfirmationModel) -> RequestModel {
        RequestModel {
            confirmations: self.confirmations.push(confirmation),
            state: RequestState::Confirming,
            ..self
        }
    }

    /// Whether the request is open and has gathered `quorum` confirmations,
    /// and one at least.
    pub open spec fn ripe(self, quorum: u64) -> bool {
        &&& !self.state.is_terminal()
        &&& self.confirmations.len() > 0
        &&& self.confirmations.len() >= quorum
    }

    /// This request settled with the lower median of what was reported.
    pub open spec fn resolved(self) -> RequestModel {
        RequestModel {
            final_data: Some(lower_median(data_of(self.confirmations))),
            state: RequestState::Resolved,
            ..self
        }
    }

    /// This request taken back.
    pub open spec fn cancelled(self) -> RequestModel {
        RequestModel { state: RequestState::Cancelled, ..self }
    }

    /// Why a confirmation is turned down, if it is: in this order, the
    /// request is closed, the deadline has come, the oracle is not
    /// authorized, it has confirmed before, the feed has no quorum.
    pub open spec fn confirm_error(
        self,
        now: u64,
        from: Seq<char>,
        authorized: bool,
        quorum: Option<u64>,
    ) -> Option<LedgerError> {
        if self.state.is_terminal() {
            Some(LedgerError::RequestNotActive)
        } else if now >= self.cancel_expiration {
            Some(LedgerError::RequestExpired)
        } else if !authorized {
            Some(LedgerError::Unauthorized)
        } else if confirmed_by(self.confirmations, from) {
            Some(LedgerError::DuplicateConfirmation)
        } else if quorum is None {
            Some(LedgerError::InvalidSpec)
        } else {
            None
        }
    }

    /// This request after `from` has reported `data`: one confirmation
    /// more, and settled if that makes the quorum.
    pub open spec fn confirmed(self, from: Seq<char>, data: u128, quorum: u64) -> RequestModel {
        let gathered = self.with_confirmation(self.confirmation(from, data));
        if gathered.ripe(quorum) {
            gathered.resolved()
        } else {
            gathered
        }
    }

    /// Why a cancellation is turned down, if it is: in this order, the
    /// caller is not the sender, the request is closed, the deadline has not
    /// come.
    pub open spec fn cancel_error(self, now: u64, caller: Seq<char>) -> Option<LedgerError> {
        if caller != self.sender {
            Some(LedgerError::Unauthorized)
        } else if self.state.is_terminal() {
            Some(LedgerError::RequestNotActive)
        } else if now < self.cancel_expiration {
            Some(LedgerError::TooEarly)
        } else {
            None
        }
    }
}

/// A request on the ledger.
pub struct Request {
    id: Vec<u8>,
    sender: String,
    spec_id: [u8; 32],
    data_version: u64,
    payment: u128,
    callback_contract: String,
    callback_function_id: Vec<u8>,
    cancel_expiration: u64,
    confirmations: Vec<Confirmation>,
    final_data: Option<u128>,
    state: RequestState,
}

impl View for Request {
    type V = RequestModel;

    closed spec fn view(&self) -> RequestModel {
        RequestModel {
            id: self.id@,
            sender: self.sender@,
            spec_id: self.spec_id@,
            data_version: self.data_version,
            payment: self.payment,
            callback_contract: self.callback_contract@,
            callback_function_id: self.callback_function_id@,
            cancel_expiration: self.cancel_expiration,
            confirmations: models_of(self.confirmations@),
            final_data: self.final_data,
            state: self.state,
        }
    }
}

impl Request {
    /// The request is valid, and its identifier is short enough to be
    /// encoded.
    pub open spec fn wf(&self) -> bool {
        self@.valid() && self@.id.len() <= u32::MAX
    }

    /// Builds the request that carries the identifier `id`, at the time
    /// `now`. Fails with `InvalidExpiration` unless the deadline lies after
    /// `now`.
    pub fn assemble(
        id: Vec<u8>,
        now: u64,
        sender: String,
        spec_id: [u8; 32],
        data_version: u64,
        payment: u128,
        callback_contract: String,
        callback_function_id: Vec<u8>,
        cancel_expiration: u64,
    ) -> (made: Result<Self, LedgerError>)
        requires
            id@.len() <= u32::MAX,
        ensures
            cancel_expiration <= now ==> (made matches Err(e) && e
                == LedgerError::InvalidExpiration),
            cancel_expiration > now ==> (made matches Ok(request) && request.wf() && request@
                == RequestModel::fresh(
                id@,
                sender@,
                spec_id@,
                data_version,
                payment,
                callback_contract@,
                callback_function_id@,
                cancel_expiration,
            )),
    {
        if cancel_expiration <= now {
            return Err(LedgerError::InvalidExpiration);
        }
        Ok(
            Request::lodged(
                id,
                sender,
                spec_id,
                data_version,
                payment,
                callback_contract,
                callback_function_id,
                cancel_expiration,
            ),
        )
    }

    /// The request as it is lodged, its deadline taken as it is given.
    pub(crate) fn lodged(
        id: Vec<u8>,
        sender: String,
        spec_id: [u8; 32],
        data_version: u64,
        payment: u128,
        callback_contract: String,
        callback_function_id: Vec<u8>,
        cancel_expiration: u64,
    ) -> (request: Self)
        requires
            id@.len() <= u32::MAX,
        ensures
            request.wf(),
            request@ == RequestModel::fresh(
                id@,
                sender@,
                spec_id@,
                data_version,
                payment,
                callback_contract@,
                callback_function_id@,
                cancel_expiration,
            ),
    {
        let request = Request {
            id,
            sender,
            spec_id,
            data_version,
            payment,
            callback_contract,
            callback_function_id,
            cancel_expiration,
            confirmations: Vec::new(),
            final_data: None,
            state: RequestState::Created,
        };
        assert(request@.confirmations =~= Seq::empty());
        request
    }

    /// Builds the request that `sender` makes with `nonce`, at the time of
    /// the current block. Its identifier is derived from the two. Fails with
    /// `InvalidExpiration` unless the deadline lies after that time.
    pub fn new(
        nonce: u128,
        sender: String,
        spec_id: [u8; 32],
        data_version: u64,
        payment: u128,
        callback_contract: String,
        callback_function_id: Vec<u8>,
        cancel_expiration: u64,
    ) -> (made: Result<Self, LedgerError>)
        requires
            encodable(sender@),
        ensures
            match made {
                Ok(request) => request.wf() && request@ == RequestModel::fresh(
                    request_id_of(sender@, nonce),
                    sender@,
                    spec_id@,
                    data_version,
                    payment,
                    callback_contract@,
                    callback_function_id@,
                    cancel_expiration,
                ),
                Err(e) => e == LedgerError::InvalidExpiration,
            },
            cancel_expiration == 0 ==> made is Err,
    {
        let now = block_timestamp();
        let id = derive_request_id(&sender, nonce);
        Request::assemble(
            id,
            now,
            sender,
            spec_id,
            data_version,
            payment,
            callback_contract,
            callback_function_id,
            cancel_expiration,
        )
    }

    fn has_confirmed(&self, who: &String) -> (found: bool)
        ensures
            found == confirmed_by(self@.confirmations, who@),
    {
        let mut i: usize = 0;
        while i < self.confirmations.len()
            invariant
                i <= self.confirmations@.len(),
                forall|k: int| 0 <= k < i ==> self@.confirmations[k].from != who@,
            decreases self.confirmations@.len() - i,
        {
            if self.confirmations[i].from == *who {
                assert(self@.confirmations[i as int].from == who@);
                return true;
            }
            i += 1;
        }
        false
    }

    /// Adds a confirmation that was made for this request. Fails with
    /// `RequestNotActive` on a closed request, and with
    /// `DuplicateConfirmation` where its oracle has confirmed before.
    pub fn add_confirmation(&mut self, conf: Confirmation) -> (done: Result<(), LedgerError>)
        requires
            old(self).wf(),
            conf@.confirmation_id == confirmation_id_of(old(self)@.id, conf@.from),
        ensures
            final(self).wf(),
            old(self)@.state.is_terminal() ==> done == Err::<(), LedgerError>(
                LedgerError::RequestNotActive,
            ),
            !old(self)@.state.is_terminal() && confirmed_by(old(self)@.confirmations, conf@.from)
                ==> done == Err::<(), LedgerError>(LedgerError::DuplicateConfirmation),
            !old(self)@.state.is_terminal() && !confirmed_by(old(self)@.confirmations, conf@.from)
                ==> done is Ok,
            done is Ok ==> final(self)@ == old(self)@.with_confirmation(conf@),
            done is Err ==> final(self)@ == old(self)@,
    {
        if self.state.is_terminal() {
            return Err(LedgerError::RequestNotActive);
        }
        if self.has_confirmed(&conf.from) {
            return Err(LedgerError::DuplicateConfirmation);
        }
        let ghost before = self@;
        self.confirmations.push(conf);
        self.state = RequestState::Confirming;
        proof {
            assert(self@.confirmations =~= before.confirmations.push(conf@));
            assert(self@ == before.with_confirmation(conf@));
            assert forall|i: int, j: int| 0 <= i < j < self@.confirmations.len() implies self@.confirmations[i].from
                != self@.confirmations[j].from by {
                if j == before.confirmations.len() {
                    assert(before.confirmations[i].from != conf@.from);
                }
            }
        }
        Ok(())
    }

    /// Settles the request if it is open and has gathered `quorum`
    /// confirmations, and one at least: its final value becomes the lower
    /// median of what was reported, and that value is returned. Does
    /// nothing and returns `None` otherwise.
    pub fn try_resolve(&mut self, quorum: u64) -> (settled: Option<u128>)
        requires
            old(self).wf(),
        ensures
            final(self).wf(),
            old(self)@.ripe(quorum) ==> final(self)@ == old(self)@.resolved() && settled == final(self)@.final_data,
            !old(self)@.ripe(quorum) ==> final(self)@ == old(self)@ && settled is None,
    {
        if self.state.is_terminal() || !quorum_reached(&self.confirmations, quorum) {
            return None;
        }
        match aggregate(&self.confirmations) {
            Some(median) => {
                self.final_data = Some(median);
                self.state = RequestState::Resolved;
                Some(median)
            },
            None => None,
        }
    }

    /// Takes a report of `data` by the oracle `from` at the time `now`.
    /// `authorized` says whether the oracle may confirm requests for this
    /// feed, `quorum` how many confirmations the feed asks for, if it is
    /// known. Returns the final value if this confirmation settles the
    /// request, and `None` if more are needed.
    pub fn confirm_at(
        &mut self,
        now: u64,
        from: String,
        data: u128,
        authorized: bool,
        quorum: Option<u64>,
    ) -> (outcome: Result<Option<u128>, LedgerError>)
        requires
            old(self).wf(),
            encodable(from@),
        ensures
            final(self).wf(),
            match outcome {
                Ok(settled) => old(self)@.confirm_error(now, from@, authorized, quorum) is None
                    && final(self)@ == old(self)@.confirmed(from@, data, quorum.unwrap())
                    && settled == final(self)@.final_data,
                Err(e) => old(self)@.confirm_error(now, from@, authorized, quorum) == Some(e)
                    && final(self)@ == old(self)@,
            },
    {
        if self.state.is_terminal() {
            return Err(LedgerError::RequestNotActive);
        }
        if now >= self.cancel_expiration {
            return Err(LedgerError::RequestExpired);
        }
        if !authorized {
            return Err(LedgerError::Unauthorized);
        }
        if self.has_confirmed(&from) {
            return Err(LedgerError::DuplicateConfirmation);
        }
        let quorum = match quorum {
            Some(quorum) => quorum,
            None => {
                return Err(LedgerError::InvalidSpec);
            },
        };
        let conf = Confirmation::new(&self.id, from, data);
        let added = self.add_confirmation(conf);
        assert(added is Ok);
        Ok(self.try_resolve(quorum))
    }

    /// Takes the request back for `caller` at the time `now`, and returns
    /// the payment that is due back to the sender: all of it.
    pub fn cancel_at(&mut self, now: u64, caller: &String) -> (outcome: Result<u128, LedgerError>)
        requires
            old(self).wf(),
        ensures
            final(self).wf(),
            match outcome {
                Ok(refund) => old(self)@.cancel_error(now, caller@) is None && final(self)@ == old(self)@.cancelled() && refund == old(self)@.payment,
                Err(e) => old(self)@.cancel_error(now, caller@) == Some(e) && final(self)@ == old(self)@,
            },
    {
        if *caller != self.sender {
            return Err(LedgerError::Unauthorized);
        }
        if self.state.is_terminal() {
            return Err(LedgerError::RequestNotActive);
        }
        if now < self.cancel_expiration {
            return Err(LedgerError::TooEarly);
        }
        self.state = RequestState::Cancelled;
        Ok(self.payment)
    }

    /// The identifier of the request.
    pub fn id(&self) -> (id: &Vec<u8>)
        ensures
            id@ == self@.id,
    {
        &self.id
    }

    /// Who made the request, and may take it back.
    pub fn sender(&self) -> (sender: &String)
        ensures
            sender@ == self@.sender,
    {
        &self.sender
    }

    /// The feed that is asked for.
    pub fn spec_id(&self) -> (spec_id: [u8; 32])
        ensures
            spec_id@ == self@.spec_id,
    {
        self.spec_id
    }

    /// The version of the payload that is asked for.
    pub fn data_version(&self) -> (version: u64)
        ensures
            version == self@.data_version,
    {
        self.data_version
    }

    /// The payment held for the request.
    pub fn payment(&self) -> (payment: u128)
        ensures
            payment == self@.payment,
    {
        self.payment
    }

    /// The account that is told of the final value.
    pub fn callback_contract(&self) -> (account: &String)
        ensures
            account@ == self@.callback_contract,
    {
        &self.callback_contract
    }

    /// The function of that account that is told.
    pub fn callback_function_id(&self) -> (function: &Vec<u8>)
        ensures
            function@ == self@.callback_function_id,
    {
        &self.callback_function_id
    }

    /// The deadline: from then on no confirmation is taken, and the sender
    /// may take the request back.
    pub fn cancel_expiration(&self) -> (deadline: u64)
        ensures
            deadline == self@.cancel_expiration,
    {
        self.cancel_expiration
    }

    /// The confirmations gathered so far, in the order of their arrival.
    pub fn confirmations(&self) -> (confirmations: &Vec<Confirmation>)
        ensures
            models_of(confirmations@) == self@.confirmations,
    {
        &self.confirmations
    }

    /// The final value, once the request is resolved.
    pub fn final_data(&self) -> (value: Option<u128>)
        ensures
            value == self@.final_data,
    {
        self.final_data
    }

    /// Where the request stands.
    pub fn state(&self) -> (state: RequestState)
        ensures
            state == self@.state,
    {
        self.state
    }
}

} // verus!
