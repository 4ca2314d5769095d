//! The consumer's side: the requests it has drawn up, sent to the ledger,
//! taken back or seen resolved.

use crate::client::fee_provider::FeeProvider;
use crate::errors::LedgerError;
use crate::ids::{encodable, request_id_of, same_bytes};
use crate::ledger::ChainScore;
use crate::nonces::next_in;
use vstd::prelude::*;

verus! {

/// How far a request of the consumer has come.
#[derive(Clone, Copy, Debug, PartialEq, Eq, Structural)]
pub enum Progress {
    /// Drawn up, not yet sent.
    Draft,
    /// On the ledger, waiting for its oracles.
    Sent,
    /// Resolved; the final value has come back.
    Resolved,
    /// Taken back after its deadline.
    Cancelled,
}

/// What the consumer knows of one of its requests.
pub struct RequestModel {
    pub data: Seq<char>,
    pub cancel_expiration: u64,
    pub id: Option<Seq<u8>>,
    pub progress: Progress,
    pub final_data: Option<u128>,
}

/// One request of the consumer: what it asks for, how long it is to stay
/// open, and what has become of it.
pub struct Request {
    data: String,
    cancel_expiration: u64,
    id: Option<Vec<u8>>,
    progress: Progress,
    final_data: Option<u128>,
}

impl View for Request {
    type V = RequestModel;

    closed spec fn view(&self) -> RequestModel {
        RequestModel {
            data: self.data@,
            cancel_expiration: self.cancel_expiration,
            id: match self.id {
                Some(id) => Some(id@),
                None => None,
            },
            progress: self.progress,
            final_data: self.final_data,
        }
    }
}

impl Request {
    /// What is asked for.
    pub fn data(&self) -> (data: &String)
        ensures
            data@ == self@.data,
    {
        &self.data
    }

    /// How long the request is to stay open once it is sent.
    pub fn cancel_expiration(&self) -> (delta: u64)
        ensures
            delta == self@.cancel_expiration,
    {
        self.cancel_expiration
    }

    /// The identifier that the ledger gave the request, once it is sent.
    pub fn id(&self) -> (id: Option<&Vec<u8>>)
        ensures
            id is Some <==> self@.id is Some,
            id matches Some(bytes) ==> self@.id == Some(bytes@),
    {
        match &self.id {
            Some(id) => Some(id),
            None => None,
        }
    }

    /// How far the request has come.
    pub fn progress(&self) -> (progress: Progress)
        ensures
            progress == self@.progress,
    {
        self.progress
    }

    /// The final value, once it has come back.
    pub fn final_data(&self) -> (value: Option<u128>)
        ensures
            value == self@.final_data,
    {
        self.final_data
    }
}

/// What each of the requests says.
pub open spec fn models_of(requests: Seq<Request>) -> Seq<RequestModel> {
    requests.map_values(|r: Request| r@)
}

/// What the consumer holds.
pub struct ClientModel {
    pub account: Seq<char>,
    pub cs_token: Seq<char>,
    pub cs_contract: Seq<char>,
    pub fee_provider: Seq<char>,
    pub requests: Seq<RequestModel>,
}

impl ClientModel {
    /// Whether the request at place `i` was sent and stands on the ledger
    /// under `id`.
    pub open spec fn waits_at(self, i: int, id: Seq<u8>) -> bool {
        &&& 0 <= i < self.requests.len()
        &&& self.requests[i].progress is Sent
        &&& self.requests[i].id == Some(id)
    }

    /// Whether `i` is the first place at which a request waits under `id`.
    pub open spec fn first_waiting(self, i: int, id: Seq<u8>) -> bool {
        self.waits_at(i, id) && forall|k: int| 0 <= k < i ==> !self.waits_at(k, id)
    }

    /// Whether a request waits under `id` at all.
    pub open spec fn awaits(self, id: Seq<u8>) -> bool {
        exists|i: int| self.waits_at(i, id)
    }

    /// The consumer's name can be encoded.
    pub open spec fn valid(self) -> bool {
        encodable(self.account)
    }
}

/// The consumer's entry to the ledger.
pub struct ChainScoreClient {
    requests: Vec<Request>,
    account: String,
    cs_token: String,
    cs_contract: String,
    fee_provider: String,
}

impl View for ChainScoreClient {
    type V = ClientModel;

    closed spec fn view(&self) -> ClientModel {
        ClientModel {
            account: self.account@,
            cs_token: self.cs_token@,
            cs_contract: self.cs_contract@,
            fee_provider: self.fee_provider@,
            requests: models_of(self.requests@),
        }
    }
}

impl ChainScoreClient {
    /// A consumer under the name `account`, with no request yet. The other
    /// three name the token it pays in, the ledger and the fee schedule.
    pub fn new(account: String, cs_token: String, cs_contract: String, fee_provider: String) -> (client:
        Self)
        requires
            encodable(account@),
        ensures
            client@.valid(),
            client@ == (ClientModel {
                account: account@,
                cs_token: cs_token@,
                cs_contract: cs_contract@,
                fee_provider: fee_provider@,
                requests: Seq::empty(),
            }),
    {
        let client = ChainScoreClient {
            requests: Vec::new(),
            account,
            cs_token,
            cs_contract,
            fee_provider,
        };
        assert(client@.requests =~= Seq::empty());
        client
    }

    /// Names another ledger.
    pub fn set_cs_contract(&mut self, cs_contract: String)
        ensures
            final(self)@ == (ClientModel { cs_contract: cs_contract@, ..old(self)@ }),
    {
        self.cs_contract = cs_contract;
    }

    /// The ledger that the consumer names.
    pub fn cs_contract(&self) -> (account: &String)
        ensures
            account@ == self@.cs_contract,
    {
        &self.cs_contract
    }

    /// The token that the consumer pays in.
    pub fn cs_token(&self) -> (account: &String)
        ensures
            account@ == self@.cs_token,
    {
        &self.cs_token
    }

    /// The fee schedule that the consumer names.
    pub fn fee_provider(&self) -> (account: &String)
        ensures
            account@ == self@.fee_provider,
    {
        &self.fee_provider
    }

    /// The name under which the consumer sends its requests.
    pub fn account(&self) -> (account: &String)
        ensures
            account@ == self@.account,
    {
        &self.account
    }

    /// The request at place `handle`, if there is one.
    pub fn request(&self, handle: usize) -> (found: Option<&Request>)
        ensures
            found is Some <==> handle < self@.requests.len(),
            found matches Some(request) ==> request@ == self@.requests[handle as int],
    {
        if handle < self.requests.len() {
            Some(&self.requests[handle])
        } else {
            None
        }
    }

    /// Draws up a request for `data` that is to stay open for
    /// `cancel_expiration` once it is sent, and returns its place.
    pub fn create_request(&mut self, data: String, cancel_expiration: u64) -> (handle: usize)
        requires
            old(self)@.valid(),
        ensures
            final(self)@.valid(),
            handle == old(self)@.requests.len(),
            final(self)@ == (ClientModel {
                requests: old(self)@.requests.push(
                    RequestModel {
                        data: data@,
                        cancel_expiration,
                        id: None,
                        progress: Progress::Draft,
                        final_data: None,
                    },
                ),
                ..old(self)@
            }),
    {
        let ghost before = self@;
        let handle = self.requests.len();
        self.requests.push(
            Request { data, cancel_expiration, id: None, progress: Progress::Draft, final_data: None },
        );
        proof {
            assert(self@.requests =~= before.requests.push(self.requests@[handle as int]@));
        }
        handle
    }

    /// Sends the draft at place `handle` to the ledger at the time `now`,
    /// under the consumer's name and with the consumer as the one to call
    /// back. Fails with `RequestNotFound` where there is no such place, with
    /// `RequestNotActive` where the request is no draft any more, and as
    /// the ledger does. Returns the identifier that the ledger gave.
    pub fn send_request(
        &mut self,
        handle: usize,
        ledger: &mut ChainScore,
        now: u64,
        schedule: &FeeProvider,
        spec_id: [u8; 32],
        data_version: u64,
        payment: u128,
        callback_function_id: Vec<u8>,
        available: u128,
    ) -> (outcome: Result<Vec<u8>, LedgerError>)
        requires
            old(self)@.valid(),
            old(ledger).wf(),
            schedule.wf(),
        ensures
            final(self)@.valid(),
            final(ledger).wf(),
            final(ledger)@.valid(),
            handle >= old(self)@.requests.len() ==> outcome == Err::<Vec<u8>, LedgerError>(
                LedgerError::RequestNotFound,
            ),
            handle < old(self)@.requests.len() && !(old(self)@.requests[handle as int].progress
                is Draft) ==> outcome == Err::<Vec<u8>, LedgerError>(LedgerError::RequestNotActive),
            handle < old(self)@.requests.len() && old(self)@.requests[handle as int].progress
                is Draft ==> match outcome {
                Ok(id) => old(ledger)@.create_error(
                    now,
                    schedule@,
                    old(self)@.account,
                    spec_id@,
                    payment,
                    old(self)@.requests[handle as int].cancel_expiration,
                    available,
                ) is None && id@ == request_id_of(
                    old(self)@.account,
                    next_in(old(ledger)@.nonces, old(self)@.account),
                ),
                Err(e) => old(ledger)@.create_error(
                    now,
                    schedule@,
                    old(self)@.account,
                    spec_id@,
                    payment,
                    old(self)@.requests[handle as int].cancel_expiration,
                    available,
                ) == Some(e),
            },
            match outcome {
                Ok(id) => final(ledger)@ == old(ledger)@.created(
                    now,
                    old(self)@.account,
                    spec_id@,
                    data_version,
                    payment,
                    old(self)@.account,
                    callback_function_id@,
                    old(self)@.requests[handle as int].cancel_expiration,
                ) && final(self)@ == (ClientModel {
                    requests: old(self)@.requests.update(
                        handle as int,
                        RequestModel {
                            id: Some(id@),
                            progress: Progress::Sent,
                            ..old(self)@.requests[handle as int]
                        },
                    ),
                    ..old(self)@
                }),
                Err(_) => final(ledger)@ == old(ledger)@ && final(self)@ == old(self)@,
            },
    {
        if handle >= self.requests.len() {
            proof {
                ledger.lemma_wf_valid();
            }
            return Err(LedgerError::RequestNotFound);
        }
        match self.requests[handle].progress {
            Progress::Draft => {},
            _ => {
                proof {
                    ledger.lemma_wf_valid();
                }
                return Err(LedgerError::RequestNotActive);
            },
        }
        let ghost before = self@;
        let delta = self.requests[handle].cancel_expiration;
        let outcome = ledger.create_at(
            now,
            schedule,
            self.account.clone(),
            spec_id,
            data_version,
            payment,
            self.account.clone(),
            callback_function_id,
            delta,
            available,
        );
        match outcome {
            Ok(id) => {
                let kept = id.clone();
                assert(kept@ == id@);
                self.requests[handle].id = Some(kept);
                self.requests[handle].progress = Progress::Sent;
                proof {
                    assert(self@.requests =~= before.requests.update(
                        handle as int,
                        RequestModel {
                            id: Some(id@),
                            progress: Progress::Sent,
                            ..before.requests[handle as int]
                        },
                    ));
                }
                Ok(id)
            },
            Err(e) => Err(e),
        }
    }

    fn position(&self, id: &Vec<u8>) -> (at: Option<usize>)
        ensures
            match at {
                Some(i) => self@.first_waiting(i as int, id@),
                None => !self@.awaits(id@),
            },
    {
        let mut i: usize = 0;
        while i < self.requests.len()
            invariant
                i <= self.requests@.len(),
                forall|k: int| 0 <= k < i ==> !self@.waits_at(k, id@),
            decreases self.requests@.len() - i,
        {
            let sent = match self.requests[i].progress {
                Progress::Sent => true,
                _ => false,
            };
            let same = match &self.requests[i].id {
                Some(own) => same_bytes(own, id),
                None => false,
            };
            if sent && same {
                return Some(i);
            }
            i += 1;
        }
        None
    }

    /// Takes the request at place `handle` back from the ledger at the time
    /// `now`. Fails with `RequestNotFound` where there is no such place,
    /// with `RequestNotActive` where the request is not waiting on the
    /// ledger, and as the ledger does. Returns the payment that is due back.
    pub fn cancel_request(&mut self, handle: usize, ledger: &mut ChainScore, now: u64) -> (outcome:
        Result<u128, LedgerError>)
        requires
            old(self)@.valid(),
            old(ledger).wf(),
        ensures
            final(self)@.valid(),
            final(ledger).wf(),
            final(ledger)@.valid(),
            handle >= old(self)@.requests.len() ==> outcome == Err::<u128, LedgerError>(
                LedgerError::RequestNotFound,
            ),
            handle < old(self)@.requests.len() && !(old(self)@.requests[handle as int].progress
                is Sent && old(self)@.requests[handle as int].id is Some) ==> outcome == Err::<
                u128,
                LedgerError,
            >(LedgerError::RequestNotActive),
            handle < old(self)@.requests.len() && old(self)@.requests[handle as int].progress
                is Sent && old(self)@.requests[handle as int].id is Some ==> match outcome {
                Ok(refund) => old(ledger)@.cancel_error(
                    now,
                    old(self)@.requests[handle as int].id.unwrap(),
                    old(self)@.account,
                ) is None && refund == old(ledger)@.requests[old(self)@.requests[handle as int].id.unwrap()].payment,
                Err(e) => old(ledger)@.cancel_error(
                    now,
                    old(self)@.requests[handle as int].id.unwrap(),
                    old(self)@.account,
                ) == Some(e),
            },
            match outcome {
                Ok(_) => final(ledger)@ == old(ledger)@.cancelled(
                    old(self)@.requests[handle as int].id.unwrap(),
                ) && final(self)@ == (ClientModel {
                    requests: old(self)@.requests.update(
                        handle as int,
                        RequestModel {
                            progress: Progress::Cancelled,
                            ..old(self)@.requests[handle as int]
                        },
                    ),
                    ..old(self)@
                }),
                Err(_) => final(ledger)@ == old(ledger)@ && final(self)@ == old(self)@,
            },
    {
        proof {
            ledger.lemma_wf_valid();
        }
        if handle >= self.requests.len() {
            return Err(LedgerError::RequestNotFound);
        }
        let sent = match self.requests[handle].progress {
            Progress::Sent => true,
            _ => false,
        };
        let ghost before = self@;
        let outcome = match &self.requests[handle].id {
            Some(id) => {
                if !sent {
                    return Err(LedgerError::RequestNotActive);
                }
                match ledger.cancel_at(now, id, &self.account) {
                    Ok(refund) => Ok(refund.amount),
                    Err(e) => Err(e),
                }
            },
            None => {
                return Err(LedgerError::RequestNotActive);
            },
        };
        match outcome {
            Ok(refund) => {
                self.requests[handle].progress = Progress::Cancelled;
                proof {
                    assert(self@.requests =~= before.requests.update(
                        handle as int,
                        RequestModel {
                            progress: Progress::Cancelled,
                            ..before.requests[handle as int]
                        },
                    ));
                }
                Ok(refund)
            },
            Err(e) => Err(e),
        }
    }

    /// Takes the word that the request `request_id` is resolved with
    /// `final_data`: the first request that waits under that identifier is
    /// marked resolved and keeps the value, and its place is returned.
    /// Nothing changes, and `None` is returned, where no request waits under
    /// it.
    pub fn resolve_request(&mut self, request_id: &Vec<u8>, final_data: u128) -> (handle: Option<
        usize,
    >)
        ensures
            final(self)@.valid() == old(self)@.valid(),
            handle is Some <==> old(self)@.awaits(request_id@),
            handle is None ==> final(self)@ == old(self)@,
            handle matches Some(i) ==> old(self)@.first_waiting(i as int, request_id@) && final(self)@ == (ClientModel {
                requests: old(self)@.requests.update(
                    i as int,
                    RequestModel {
                        progress: Progress::Resolved,
                        final_data: Some(final_data),
                        ..old(self)@.requests[i as int]
                    },
                ),
                ..old(self)@
            }),
    {
        let ghost before = self@;
        match self.position(request_id) {
            Some(i) => {
                self.requests[i].progress = Progress::Resolved;
                self.requests[i].final_data = Some(final_data);
                proof {
                    assert(self@.requests =~= before.requests.update(
                        i as int,
                        RequestModel {
                            progress: Progress::Resolved,
                            final_data: Some(final_data),
                            ..before.requests[i as int]
                        },
                    ));
                }
                Some(i)
            },
            None => None,
        }
    }
}

} // verus!
