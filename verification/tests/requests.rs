use chainscore::settlement::{pay_oracles, refund};
use chainscore::{Confirmation, LedgerError, Request, RequestState};

const FEED: [u8; 32] = [4u8; 32];

fn name(s: &str) -> String {
    s.to_string()
}

fn request(payment: u128, deadline: u64) -> Request {
    Request::assemble(
        vec![5u8; 32],
        0,
        name("alice.near"),
        FEED,
        1,
        payment,
        name("alice.near"),
        b"cb".to_vec(),
        deadline,
    )
    .ok()
    .unwrap()
}

#[test]
fn assemble_needs_a_deadline_after_now() {
    let made = Request::assemble(vec![1], 10, name("a"), FEED, 1, 1, name("a"), vec![], 10);
    assert!(matches!(made, Err(LedgerError::InvalidExpiration)));
    let made = Request::assemble(vec![1], 10, name("a"), FEED, 1, 1, name("a"), vec![], 9);
    assert!(matches!(made, Err(LedgerError::InvalidExpiration)));
    let made = Request::assemble(vec![1], 10, name("a"), FEED, 1, 1, name("a"), vec![], 11);
    assert!(made.is_ok());
}

#[test]
fn add_confirmation_appends_in_order() {
    let mut r = request(100, 1000);
    let id = r.id().clone();
    assert_eq!(r.add_confirmation(Confirmation::new(&id, name("b.near"), 7)), Ok(()));
    assert_eq!(r.state(), RequestState::Confirming);
    assert_eq!(r.add_confirmation(Confirmation::new(&id, name("a.near"), 3)), Ok(()));
    assert_eq!(r.confirmations().len(), 2);
    assert_eq!(r.confirmations()[0].from(), "b.near");
    assert_eq!(r.confirmations()[1].from(), "a.near");
    assert_eq!(r.confirmations()[1].data(), 3);
    assert_eq!(
        r.add_confirmation(Confirmation::new(&id, name("b.near"), 9)),
        Err(LedgerError::DuplicateConfirmation)
    );
    assert_eq!(r.confirmations().len(), 2);
}

#[test]
fn try_resolve_waits_for_the_quorum() {
    let mut r = request(100, 1000);
    assert_eq!(r.try_resolve(0), None);
    assert_eq!(r.try_resolve(1), None);
    let id = r.id().clone();
    r.add_confirmation(Confirmation::new(&id, name("a.near"), 30)).unwrap();
    assert_eq!(r.try_resolve(2), None);
    assert_eq!(r.state(), RequestState::Confirming);
    r.add_confirmation(Confirmation::new(&id, name("b.near"), 10)).unwrap();
    r.add_confirmation(Confirmation::new(&id, name("c.near"), 20)).unwrap();
    assert_eq!(r.try_resolve(4), None);
    assert_eq!(r.try_resolve(3), Some(20));
    assert_eq!(r.state(), RequestState::Resolved);
    assert_eq!(r.final_data(), Some(20));
    assert_eq!(r.try_resolve(3), None);
    assert_eq!(r.final_data(), Some(20));
    assert_eq!(
        r.add_confirmation(Confirmation::new(&id, name("d.near"), 1)),
        Err(LedgerError::RequestNotActive)
    );
}

#[test]
fn confirm_at_refuses_in_order() {
    let mut r = request(100, 1000);
    assert_eq!(r.confirm_at(1000, name("a.near"), 1, false, None), Err(LedgerError::RequestExpired));
    assert_eq!(r.confirm_at(999, name("a.near"), 1, false, None), Err(LedgerError::Unauthorized));
    assert_eq!(r.confirm_at(999, name("a.near"), 1, true, None), Err(LedgerError::InvalidSpec));
    assert_eq!(r.confirm_at(999, name("a.near"), 1, true, Some(2)), Ok(None));
    assert_eq!(
        r.confirm_at(999, name("a.near"), 1, true, None),
        Err(LedgerError::DuplicateConfirmation)
    );
    assert_eq!(r.confirm_at(999, name("b.near"), 5, true, Some(2)), Ok(Some(1)));
    assert_eq!(
        r.confirm_at(5000, name("c.near"), 5, false, None),
        Err(LedgerError::RequestNotActive)
    );
}

#[test]
fn cancel_at_refuses_in_order() {
    let mut r = request(100, 1000);
    assert_eq!(r.cancel_at(0, &name("bob.near")), Err(LedgerError::Unauthorized));
    assert_eq!(r.cancel_at(999, &name("alice.near")), Err(LedgerError::TooEarly));
    assert_eq!(r.cancel_at(1000, &name("alice.near")), Ok(100));
    assert_eq!(r.state(), RequestState::Cancelled);
    assert_eq!(r.cancel_at(1000, &name("alice.near")), Err(LedgerError::RequestNotActive));
    assert_eq!(r.cancel_at(1000, &name("bob.near")), Err(LedgerError::Unauthorized));
}

#[test]
fn refund_is_due_on_a_cancelled_request_only() {
    let mut r = request(100, 1000);
    assert!(refund(&r, 100).is_none());
    r.cancel_at(1000, &name("alice.near")).unwrap();
    let back = refund(&r, 100).unwrap();
    assert_eq!(back.to, "alice.near");
    assert_eq!(back.amount, 100);
    assert_eq!(refund(&r, 40).unwrap().amount, 40);
    assert!(refund(&r, 101).is_none());
    assert!(pay_oracles(&r).is_empty());
}

#[test]
fn states_know_whether_they_are_final() {
    assert!(!RequestState::Created.is_terminal());
    assert!(!RequestState::Confirming.is_terminal());
    assert!(RequestState::Resolved.is_terminal());
    assert!(RequestState::Cancelled.is_terminal());
    assert!(RequestState::Expired.is_terminal());
}
