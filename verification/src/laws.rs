//! What holds of the ledger whatever is asked of it.
//!
//! The laws speak of the tables that the ledger stands for and of the calls
//! made on it, one at a time or one after another.

use crate::aggregator::lower_median;
use crate::client::fee_provider::{fee_in, quorum_in, SpecPolicy};
use crate::errors::LedgerError;
use crate::ids::request_id_of;
use crate::ledger::{deadline, refund_of, LedgerModel};
use crate::nonces::next_in;
use crate::request::data_of;
use vstd::prelude::*;

verus! {

/// A call on the ledger, with everything that decides how it ends.
pub enum Call {
    Create {
        now: u64,
        schedule: Map<Seq<u8>, SpecPolicy>,
        sender: Seq<char>,
        spec_id: Seq<u8>,
        data_version: u64,
        payment: u128,
        callback_contract: Seq<char>,
        callback_function_id: Seq<u8>,
        delta: u64,
        available: u128,
    },
    Confirm {
        now: u64,
        schedule: Map<Seq<u8>, SpecPolicy>,
        senders: Set<(Seq<u8>, Seq<char>)>,
        id: Seq<u8>,
        from: Seq<char>,
        data: u128,
    },
    Cancel { now: u64, id: Seq<u8>, caller: Seq<char> },
}

/// Why the ledger turns the call down, if it does.
pub open spec fn error_of(ledger: LedgerModel, call: Call) -> Option<LedgerError> {
    match call {
        Call::Create { now, schedule, sender, spec_id, payment, delta, available, .. } =>
            ledger.create_error(now, schedule, sender, spec_id, payment, delta, available),
        Call::Confirm { now, schedule, senders, id, from, .. } => ledger.confirm_error(
            now,
            schedule,
            senders,
            id,
            from,
        ),
        Call::Cancel { now, id, caller } => ledger.cancel_error(now, id, caller),
    }
}

/// The ledger after the call: as it was if the call is turned down, and
/// changed as the call asks if it is not.
pub open spec fn step(ledger: LedgerModel, call: Call) -> LedgerModel {
    if error_of(ledger, call) is Some {
        ledger
    } else {
        match call {
            Call::Create {
                now,
                sender,
                spec_id,
                data_version,
                payment,
                callback_contract,
                callback_function_id,
                delta,
                ..
            } => ledger.created(
                now,
                sender,
                spec_id,
                data_version,
                payment,
                callback_contract,
                callback_function_id,
                delta,
            ),
            Call::Confirm { schedule, id, from, data, .. } => ledger.confirmed(
                schedule,
                id,
                from,
                data,
            ),
            Call::Cancel { id, .. } => ledger.cancelled(id),
        }
    }
}

/// The ledger after the calls, made in their order.
pub open spec fn run(ledger: LedgerModel, calls: Seq<Call>) -> LedgerModel
    decreases calls.len(),
{
    if calls.len() == 0 {
        ledger
    } else {
        step(run(ledger, calls.drop_last()), calls.last())
    }
}

/// No call lowers a counter, and no call takes a request off the ledger.
pub proof fn law_step_only_adds(ledger: LedgerModel, call: Call)
    ensures
        forall|account: Seq<char>| #[trigger]
            next_in(step(ledger, call).nonces, account) >= next_in(ledger.nonces, account),
        forall|id: Seq<u8>| #[trigger]
            ledger.requests.dom().contains(id) ==> step(ledger, call).requests.dom().contains(id),
{
}

/// No run of calls lowers a counter, and no run of calls takes a request off
/// the ledger.
pub proof fn law_run_only_adds(ledger: LedgerModel, calls: Seq<Call>)
    ensures
        forall|account: Seq<char>| #[trigger]
            next_in(run(ledger, calls).nonces, account) >= next_in(ledger.nonces, account),
        forall|id: Seq<u8>| #[trigger]
            ledger.requests.dom().contains(id) ==> run(ledger, calls).requests.dom().contains(id),
    decreases calls.len(),
{
    if calls.len() > 0 {
        let before = run(ledger, calls.drop_last());
        law_run_only_adds(ledger, calls.drop_last());
        law_step_only_adds(before, calls.last());
        assert forall|account: Seq<char>| #[trigger]
            next_in(run(ledger, calls).nonces, account) >= next_in(ledger.nonces, account) by {
            assert(next_in(before.nonces, account) >= next_in(ledger.nonces, account));
            assert(next_in(step(before, calls.last()).nonces, account) >= next_in(
                before.nonces,
                account,
            ));
        }
        assert forall|id: Seq<u8>| #[trigger]
            ledger.requests.dom().contains(id) implies run(ledger, calls).requests.dom().contains(
            id,
        ) by {
            assert(before.requests.dom().contains(id));
            assert(step(before, calls.last()).requests.dom().contains(id));
        }
    }
}

/// Calls made one run after another are one run.
pub proof fn law_run_splits(ledger: LedgerModel, first: Seq<Call>, then: Seq<Call>)
    ensures
        run(ledger, first + then) == run(run(ledger, first), then),
    decreases then.len(),
{
    if then.len() == 0 {
        assert(first + then =~= first);
    } else {
        law_run_splits(ledger, first, then.drop_last());
        assert((first + then).drop_last() =~= first + then.drop_last());
        assert((first + then).last() == then.last());
    }
}

/// The nonce that the `i`-th of the calls is issued, if it lodges a request.
pub open spec fn nonce_at(ledger: LedgerModel, calls: Seq<Call>, i: int) -> u128 {
    next_in(run(ledger, calls.take(i)).nonces, calls[i]->Create_sender)
}

/// Whether the `i`-th of the calls lodges a request for `sender`.
pub open spec fn lodges(ledger: LedgerModel, calls: Seq<Call>, i: int, sender: Seq<char>) -> bool {
    &&& 0 <= i < calls.len()
    &&& calls[i] is Create
    &&& calls[i]->Create_sender == sender
    &&& error_of(run(ledger, calls.take(i)), calls[i]) is None
}

/// Replay protection. Of two requests that one sender lodges in a run of
/// calls, whatever else is called in between, the later has the greater
/// nonce and another identifier.
pub proof fn law_nonces_increase(
    ledger: LedgerModel,
    calls: Seq<Call>,
    i: int,
    j: int,
    sender: Seq<char>,
)
    requires
        i < j,
        lodges(ledger, calls, i, sender),
        lodges(ledger, calls, j, sender),
    ensures
        nonce_at(ledger, calls, i) < nonce_at(ledger, calls, j),
        request_id_of(sender, nonce_at(ledger, calls, i)) != request_id_of(
            sender,
            nonce_at(ledger, calls, j),
        ),
{
    let before_i = run(ledger, calls.take(i));
    let after_i = step(before_i, calls[i]);
    let between = calls.subrange(i + 1, j);
    let before_j = run(ledger, calls.take(j));
    assert(calls.take(i + 1).drop_last() =~= calls.take(i));
    assert(calls.take(i + 1).last() == calls[i]);
    assert(run(ledger, calls.take(i + 1)) == after_i);
    assert(calls.take(j) =~= calls.take(i + 1) + between);
    law_run_splits(ledger, calls.take(i + 1), between);
    law_run_only_adds(after_i, between);
    let n = nonce_at(ledger, calls, i);
    assert(next_in(after_i.nonces, sender) == n + 1);
    assert(next_in(before_j.nonces, sender) >= next_in(after_i.nonces, sender));
    assert(after_i.requests.dom().contains(request_id_of(sender, n)));
    assert(before_j.requests.dom().contains(request_id_of(sender, n)));
}

/// A request that brings less than the fee is turned down with `IllegalFee`
/// and leaves the ledger as it was, so that nothing is held for it. This is
/// said of a sender that has a nonce left and of a deadline that is a time
/// after `now`: without either the request is turned down before its fee is
/// looked at.
pub proof fn law_short_payment_is_refused(
    ledger: LedgerModel,
    now: u64,
    schedule: Map<Seq<u8>, SpecPolicy>,
    sender: Seq<char>,
    spec_id: Seq<u8>,
    data_version: u64,
    payment: u128,
    callback_contract: Seq<char>,
    callback_function_id: Seq<u8>,
    delta: u64,
    available: u128,
)
    requires
        next_in(ledger.nonces, sender) < u128::MAX,
        deadline(now, delta) is Some,
        fee_in(schedule, spec_id) matches Some(fee) && payment < fee,
    ensures
        ledger.create_error(now, schedule, sender, spec_id, payment, delta, available) == Some(
            LedgerError::IllegalFee,
        ),
        step(
            ledger,
            Call::Create {
                now,
                schedule,
                sender,
                spec_id,
                data_version,
                payment,
                callback_contract,
                callback_function_id,
                delta,
                available,
            },
        ) == ledger,
{
}

/// A confirmation that comes at the deadline or later is turned down with
/// `RequestExpired`, whoever sends it and however many confirmations are
/// there. This is said of a request that is on the ledger and open.
pub proof fn law_late_confirmation_is_refused(
    ledger: LedgerModel,
    now: u64,
    schedule: Map<Seq<u8>, SpecPolicy>,
    senders: Set<(Seq<u8>, Seq<char>)>,
    id: Seq<u8>,
    from: Seq<char>,
    data: u128,
)
    requires
        ledger.requests.dom().contains(id),
        !ledger.requests[id].state.is_terminal(),
        now >= ledger.requests[id].cancel_expiration,
    ensures
        ledger.confirm_error(now, schedule, senders, id, from) == Some(
            LedgerError::RequestExpired,
        ),
        step(ledger, Call::Confirm { now, schedule, senders, id, from, data }) == ledger,
{
}

/// A confirmation that is taken is added to those that were there, and the
/// request is resolved by it if and only if that makes as many as the feed
/// asks for. Its final value is then the lower median of all the values
/// reported, and there is no final value otherwise.
pub proof fn law_resolved_iff_quorum(
    ledger: LedgerModel,
    now: u64,
    schedule: Map<Seq<u8>, SpecPolicy>,
    senders: Set<(Seq<u8>, Seq<char>)>,
    id: Seq<u8>,
    from: Seq<char>,
    data: u128,
)
    requires
        ledger.valid(),
        ledger.confirm_error(now, schedule, senders, id, from) is None,
    ensures
        ({
            let before = ledger.requests[id];
            let after = ledger.confirmed(schedule, id, from, data).requests[id];
            let quorum = quorum_in(schedule, before.spec_id).unwrap();
            &&& after.confirmations == before.confirmations.push(before.confirmation(from, data))
            &&& data_of(after.confirmations) == data_of(before.confirmations).push(data)
            &&& after.state is Resolved <==> after.confirmations.len() >= quorum
            &&& after.state is Resolved ==> after.final_data == Some(
                lower_median(data_of(after.confirmations)),
            )
            &&& !(after.state is Resolved) ==> after.state is Confirming && after.final_data is None
        }),
{
    let before = ledger.requests[id];
    let after = ledger.confirmed(schedule, id, from, data).requests[id];
    assert(before.valid());
    assert(data_of(after.confirmations) =~= data_of(before.confirmations).push(data));
}

/// Only a confirmation resolves a request: after any other call, the
/// requests that are resolved are those that were.
pub proof fn law_only_confirmation_resolves(ledger: LedgerModel, call: Call, id: Seq<u8>)
    requires
        !(call is Confirm),
        step(ledger, call).requests.dom().contains(id),
        step(ledger, call).requests[id].state is Resolved,
    ensures
        ledger.requests.dom().contains(id),
        ledger.requests[id] == step(ledger, call).requests[id],
{
}

/// Before the deadline the sender's cancellation of an open request is
/// turned down with `TooEarly`, and the ledger stays as it was.
pub proof fn law_early_cancellation_is_refused(
    ledger: LedgerModel,
    now: u64,
    id: Seq<u8>,
    caller: Seq<char>,
)
    requires
        ledger.requests.dom().contains(id),
        caller == ledger.requests[id].sender,
        !ledger.requests[id].state.is_terminal(),
        now < ledger.requests[id].cancel_expiration,
    ensures
        ledger.cancel_error(now, id, caller) == Some(LedgerError::TooEarly),
        step(ledger, Call::Cancel { now, id, caller }) == ledger,
{
}

/// From the deadline on the sender's cancellation of an open request is
/// taken: the request is cancelled, whatever it had gathered, and all of its
/// payment is due back to the sender.
pub proof fn law_late_cancellation_is_taken(
    ledger: LedgerModel,
    now: u64,
    id: Seq<u8>,
    caller: Seq<char>,
)
    requires
        ledger.requests.dom().contains(id),
        caller == ledger.requests[id].sender,
        !ledger.requests[id].state.is_terminal(),
        now >= ledger.requests[id].cancel_expiration,
    ensures
        ledger.cancel_error(now, id, caller) is None,
        refund_of(ledger.requests[id]).to == caller,
        refund_of(ledger.requests[id]).amount == ledger.requests[id].payment,
        ({
            let after = step(ledger, Call::Cancel { now, id, caller }).requests[id];
            &&& after.state is Cancelled
            &&& after.final_data == ledger.requests[id].final_data
            &&& after.payment == ledger.requests[id].payment
            &&& after.sender == ledger.requests[id].sender
            &&& after.confirmations == ledger.requests[id].confirmations
        }),
{
}

/// A closed request turns down every confirmation with `RequestNotActive`,
/// and every cancellation by its sender too.
pub proof fn law_closed_refuses(
    ledger: LedgerModel,
    now: u64,
    schedule: Map<Seq<u8>, SpecPolicy>,
    senders: Set<(Seq<u8>, Seq<char>)>,
    id: Seq<u8>,
    from: Seq<char>,
)
    requires
        ledger.requests.dom().contains(id),
        ledger.requests[id].state.is_terminal(),
    ensures
        ledger.confirm_error(now, schedule, senders, id, from) == Some(
            LedgerError::RequestNotActive,
        ),
        ledger.cancel_error(now, id, ledger.requests[id].sender) == Some(
            LedgerError::RequestNotActive,
        ),
        from != ledger.requests[id].sender ==> ledger.cancel_error(now, id, from) == Some(
            LedgerError::Unauthorized,
        ),
{
}

/// A closed request never changes again: whatever is called, it stays on the
/// ledger as it is, its state and its final value with it.
pub proof fn law_closed_is_final(ledger: LedgerModel, calls: Seq<Call>, id: Seq<u8>)
    requires
        ledger.requests.dom().contains(id),
        ledger.requests[id].state.is_terminal(),
    ensures
        run(ledger, calls).requests.dom().contains(id),
        run(ledger, calls).requests[id] == ledger.requests[id],
    decreases calls.len(),
{
    if calls.len() > 0 {
        law_closed_is_final(ledger, calls.drop_last(), id);
    }
}

/// No call lets a request expire: a request that is expired after a call was
/// expired before it.
pub proof fn law_nothing_expires(ledger: LedgerModel, call: Call, id: Seq<u8>)
    requires
        step(ledger, call).requests.dom().contains(id),
        step(ledger, call).requests[id].state is Expired,
    ensures
        ledger.requests.dom().contains(id),
        ledger.requests[id].state is Expired,
{
}

/// Every call keeps a valid ledger valid.
pub proof fn law_step_keeps_valid(ledger: LedgerModel, call: Call)
    requires
        ledger.valid(),
    ensures
        step(ledger, call).valid(),
{
    let after = step(ledger, call);
    if error_of(ledger, call) is None {
        match call {
            Call::Create { .. } => {},
            Call::Confirm { schedule, id, from, data, .. } => {
                let before = ledger.requests[id];
                let gathered = before.with_confirmation(before.confirmation(from, data));
                assert(before.valid());
                assert forall|i: int, j: int|
                    0 <= i < j < gathered.confirmations.len() implies gathered.confirmations[i].from
                    != gathered.confirmations[j].from by {
                    if j == before.confirmations.len() {
                        assert(before.confirmations[i].from != from);
                    }
                }
                assert(gathered.valid());
                assert(after.requests[id].valid());
            },
            Call::Cancel { id, .. } => {
                assert(ledger.requests[id].valid());
            },
        }
    }
}

/// Every run of calls keeps a valid ledger valid.
pub proof fn law_run_keeps_valid(ledger: LedgerModel, calls: Seq<Call>)
    requires
        ledger.valid(),
    ensures
        run(ledger, calls).valid(),
    decreases calls.len(),
{
    if calls.len() > 0 {
        law_run_keeps_valid(ledger, calls.drop_last());
        law_step_keeps_valid(run(ledger, calls.drop_last()), calls.last());
    }
}

} // verus!
