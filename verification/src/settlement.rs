//! What is owed when a request is lodged, resolved or taken back. The
//! transfers themselves are made by whoever holds the funds.

use crate::errors::LedgerError;
use crate::request::{Request, RequestModel, RequestState};
use vstd::prelude::*;

verus! {

/// An amount that is due to an account.
pub struct TransferModel {
    pub to: Seq<char>,
    pub amount: u128,
}

/// An amount that is due to an account.
#[derive(Debug, PartialEq, Eq)]
pub struct Transfer {
    pub to: String,
    pub amount: u128,
}

impl View for Transfer {
    type V = TransferModel;

    open spec fn view(&self) -> TransferModel {
        TransferModel { to: self.to@, amount: self.amount }
    }
}

/// What each of the transfers says.
pub open spec fn transfers_of(transfers: Seq<Transfer>) -> Seq<TransferModel> {
    transfers.map_values(|t: Transfer| t@)
}

/// The share of each of `oracles` oracles in `payment`: an equal part,
/// rounded down.
pub open spec fn share_of(payment: u128, oracles: nat) -> u128 {
    if oracles == 0 {
        0
    } else {
        (payment as int / oracles as int) as u128
    }
}

/// What is left of `payment` once each of `oracles` oracles has its share.
pub open spec fn undivided(payment: u128, oracles: nat) -> u128 {
    if oracles == 0 {
        payment
    } else {
        (payment as int % oracles as int) as u128
    }
}

/// What is due to the oracles of a request: to each oracle that confirmed
/// a resolved request its share of the payment, in the order of the
/// confirmations; nothing on any other request.
pub open spec fn payouts_of(request: RequestModel) -> Seq<TransferModel> {
    if request.state is Resolved {
        request.confirmations.map_values(
            |c: crate::request::ConfirmationModel|
                TransferModel {
                    to: c.from,
                    amount: share_of(request.payment, request.confirmations.len()),
                },
        )
    } else {
        Seq::empty()
    }
}

/// What is due once a request is resolved: to each oracle its share, to the
/// sender what is left of the payment, and to the consumer the word of the
/// final value.
pub struct ResolutionModel {
    pub request_id: Seq<u8>,
    pub final_data: u128,
    pub payouts: Seq<TransferModel>,
    pub rest: TransferModel,
    pub callback_contract: Seq<char>,
    pub callback_function_id: Seq<u8>,
}

/// What is due once a request is resolved.
#[derive(Debug, PartialEq, Eq)]
pub struct Resolution {
    /// The request that is resolved.
    pub request_id: Vec<u8>,
    /// Its final value.
    pub final_data: u128,
    /// What is due to each oracle, in the order of the confirmations.
    pub payouts: Vec<Transfer>,
    /// What is left of the payment, due back to the sender.
    pub rest: Transfer,
    /// The account to tell of the final value.
    pub callback_contract: String,
    /// The function of that account to call.
    pub callback_function_id: Vec<u8>,
}

impl View for Resolution {
    type V = ResolutionModel;

    open spec fn view(&self) -> ResolutionModel {
        ResolutionModel {
            request_id: self.request_id@,
            final_data: self.final_data,
            payouts: transfers_of(self.payouts@),
            rest: self.rest@,
            callback_contract: self.callback_contract@,
            callback_function_id: self.callback_function_id@,
        }
    }
}

/// What is due on a request: on a resolved request the shares of its
/// oracles, the rest to its sender and the final value to its consumer; on
/// any other request nothing.
pub open spec fn resolution_of(request: RequestModel) -> Option<ResolutionModel> {
    if request.state is Resolved && request.final_data is Some {
        Some(
            ResolutionModel {
                request_id: request.id,
                final_data: request.final_data.unwrap(),
                payouts: payouts_of(request),
                rest: TransferModel {
                    to: request.sender,
                    amount: undivided(request.payment, request.confirmations.len()),
                },
                callback_contract: request.callback_contract,
                callback_function_id: request.callback_function_id,
            },
        )
    } else {
        None
    }
}

/// The shares and the rest make up the payment.
pub proof fn lemma_shares_add_up(payment: u128, oracles: nat)
    ensures
        oracles * share_of(payment, oracles) + undivided(payment, oracles) == payment,
        oracles > 0 ==> undivided(payment, oracles) < oracles,
{
    if oracles > 0 {
        let d = oracles as int;
        let p = payment as int;
        assert(0 <= p / d <= p && 0 <= p % d < d && d * (p / d) + p % d == p) by (nonlinear_arith)
            requires
                d > 0,
                p >= 0,
        ;
    }
}

/// Decides whether a payer can put `amount` in escrow out of the
/// `available` funds: fails with `InsufficientFunds` if it cannot, and
/// returns what is left of the funds if it can.
pub fn escrow(amount: u128, available: u128) -> (left: Result<u128, LedgerError>)
    ensures
        amount > available ==> left == Err::<u128, LedgerError>(LedgerError::InsufficientFunds),
        amount <= available ==> left == Ok::<u128, LedgerError>((available - amount) as u128),
{
    if amount > available {
        Err(LedgerError::InsufficientFunds)
    } else {
        Ok(available - amount)
    }
}

/// What is due to the oracles of `request`.
pub fn pay_oracles(request: &Request) -> (payouts: Vec<Transfer>)
    requires
        request@.valid(),
    ensures
        transfers_of(payouts@) == payouts_of(request@),
{
    let mut payouts: Vec<Transfer> = Vec::new();
    match request.state() {
        RequestState::Resolved => {},
        _ => {
            assert(transfers_of(payouts@) =~= payouts_of(request@));
            return payouts;
        },
    }
    let confirmations = request.confirmations();
    let n = confirmations.len();
    let share = request.payment() / (n as u128);
    let ghost due = payouts_of(request@);
    let mut i: usize = 0;
    while i < n
        invariant
            n == confirmations@.len(),
            i <= n,
            crate::request::models_of(confirmations@) == request@.confirmations,
            request@.state is Resolved,
            n > 0,
            share == share_of(request@.payment, n as nat),
            due == payouts_of(request@),
            transfers_of(payouts@) == due.take(i as int),
        decreases n - i,
    {
        let ghost paid = transfers_of(payouts@);
        let to = confirmations[i].from().clone();
        proof {
            assert(crate::request::models_of(confirmations@)[i as int] == confirmations@[i as int]@);
            assert(due[i as int] == TransferModel { to: to@, amount: share });
        }
        payouts.push(Transfer { to, amount: share });
        i += 1;
        assert(transfers_of(payouts@) =~= paid.push(due[i - 1]));
        assert(transfers_of(payouts@) =~= due.take(i as int));
    }
    assert(transfers_of(payouts@) =~= due);
    payouts
}

/// What is left in escrow once the oracles of `request` have their shares:
/// the rest of the division on a resolved request, nothing on any other.
pub fn left_over(request: &Request) -> (rest: u128)
    requires
        request@.valid(),
    ensures
        rest == if request@.state is Resolved {
            undivided(request@.payment, request@.confirmations.len())
        } else {
            0
        },
{
    match request.state() {
        RequestState::Resolved => {
            let n = request.confirmations().len();
            request.payment() % (n as u128)
        },
        _ => 0,
    }
}

/// What is due back to the sender of `request` when `amount` of its payment
/// is handed back: that amount to the sender, if the request was taken back
/// or has expired and the amount is no more than was paid; nothing
/// otherwise.
pub fn refund(request: &Request, amount: u128) -> (due: Option<Transfer>)
    ensures
        due is Some <==> (request@.state is Cancelled || request@.state is Expired) && amount
            <= request@.payment,
        due matches Some(transfer) ==> transfer@ == (TransferModel {
            to: request@.sender,
            amount,
        }),
{
    let closed = match request.state() {
        RequestState::Cancelled => true,
        RequestState::Expired => true,
        _ => false,
    };
    if closed && amount <= request.payment() {
        Some(Transfer { to: request.sender().clone(), amount })
    } else {
        None
    }
}

/// What is due on `request`: see `resolution_of`.
pub fn resolution(request: &Request) -> (due: Option<Resolution>)
    requires
        request@.valid(),
    ensures
        match due {
            Some(resolution) => resolution_of(request@) == Some(resolution@),
            None => resolution_of(request@) is None,
        },
{
    match request.state() {
        RequestState::Resolved => {},
        _ => {
            return None;
        },
    }
    match request.final_data() {
        Some(final_data) => Some(
            Resolution {
                request_id: request.id().clone(),
                final_data,
                payouts: pay_oracles(request),
                rest: Transfer { to: request.sender().clone(), amount: left_over(request) },
                callback_contract: request.callback_contract().clone(),
                callback_function_id: request.callback_function_id().clone(),
            },
        ),
        None => None,
    }
}

} // verus!
