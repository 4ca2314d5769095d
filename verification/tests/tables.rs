use chainscore::errors::{ERR101_ILLEGAL_FEE, ERR27_INVALID_EXPIRATION};
use chainscore::settlement::escrow;
use chainscore::{AuthorizedSenders, FeeProvider, LedgerError, NonceRegistry};

const FEED: [u8; 32] = [1u8; 32];
const OTHER: [u8; 32] = [2u8; 32];

fn name(s: &str) -> String {
    s.to_string()
}

#[test]
fn schedule_starts_empty() {
    let schedule = FeeProvider::init();
    assert_eq!(schedule.get_fee(FEED), None);
    assert_eq!(schedule.get_quorum(FEED), None);
    assert_eq!(schedule.policy(FEED), None);
}

#[test]
fn set_fee_enters_and_replaces() {
    let mut schedule = FeeProvider::init();
    schedule.set_fee(FEED, 100);
    assert_eq!(schedule.get_fee(FEED), Some(100));
    assert_eq!(schedule.get_quorum(FEED), Some(1));
    assert_eq!(schedule.get_fee(OTHER), None);
    schedule.set_fee(OTHER, 5);
    schedule.set_fee(FEED, 120);
    assert_eq!(schedule.get_fee(FEED), Some(120));
    assert_eq!(schedule.get_fee(OTHER), Some(5));
}

#[test]
fn set_quorum_needs_a_known_feed() {
    let mut schedule = FeeProvider::init();
    assert_eq!(schedule.set_quorum(FEED, 3), Err(LedgerError::InvalidSpec));
    assert_eq!(schedule.get_quorum(FEED), None);
    schedule.set_fee(FEED, 100);
    assert_eq!(schedule.set_quorum(FEED, 3), Ok(()));
    assert_eq!(schedule.get_quorum(FEED), Some(3));
    assert_eq!(schedule.get_fee(FEED), Some(100));
    schedule.set_fee(FEED, 7);
    assert_eq!(schedule.get_quorum(FEED), Some(3));
}

#[test]
fn quorum_is_never_below_one() {
    let mut schedule = FeeProvider::init();
    schedule.set_fee(FEED, 100);
    assert_eq!(schedule.set_quorum(FEED, 0), Ok(()));
    assert_eq!(schedule.get_quorum(FEED), Some(1));
    assert_eq!(schedule.policy(FEED).unwrap().quorum, 0);
}

#[test]
fn registry_issues_each_nonce_once() {
    let mut registry = NonceRegistry::new();
    assert_eq!(registry.peek(&name("alice.near")), 0);
    assert_eq!(registry.next_nonce(&name("alice.near")), Some(0));
    assert_eq!(registry.next_nonce(&name("alice.near")), Some(1));
    assert_eq!(registry.next_nonce(&name("bob.near")), Some(0));
    assert_eq!(registry.next_nonce(&name("alice.near")), Some(2));
    assert_eq!(registry.peek(&name("alice.near")), 3);
    assert_eq!(registry.peek(&name("bob.near")), 1);
    assert_eq!(registry.peek(&name("carol.near")), 0);
}

#[test]
fn senders_are_authorized_feed_by_feed() {
    let mut senders = AuthorizedSenders::new();
    assert!(!senders.is_authorized(&FEED, &name("oracle-a.near")));
    senders.authorize(FEED, name("oracle-a.near"));
    assert!(senders.is_authorized(&FEED, &name("oracle-a.near")));
    assert!(!senders.is_authorized(&OTHER, &name("oracle-a.near")));
    assert!(!senders.is_authorized(&FEED, &name("oracle-b.near")));
}

#[test]
fn revoke_removes_every_entry() {
    let mut senders = AuthorizedSenders::new();
    senders.authorize(FEED, name("oracle-a.near"));
    senders.authorize(FEED, name("oracle-b.near"));
    senders.authorize(FEED, name("oracle-a.near"));
    senders.revoke(&FEED, &name("oracle-a.near"));
    assert!(!senders.is_authorized(&FEED, &name("oracle-a.near")));
    assert!(senders.is_authorized(&FEED, &name("oracle-b.near")));
    senders.revoke(&FEED, &name("nobody.near"));
    assert!(senders.is_authorized(&FEED, &name("oracle-b.near")));
}

#[test]
fn escrow_needs_cover() {
    assert_eq!(escrow(100, 99), Err(LedgerError::InsufficientFunds));
    assert_eq!(escrow(100, 100), Ok(0));
    assert_eq!(escrow(100, 250), Ok(150));
    assert_eq!(escrow(0, 0), Ok(0));
}

#[test]
fn errors_have_their_messages() {
    assert_eq!(LedgerError::InvalidExpiration.message(), ERR27_INVALID_EXPIRATION);
    assert_eq!(LedgerError::InvalidExpiration.message(), "ERR27: Invalid request expiration time");
    assert_eq!(LedgerError::IllegalFee.message(), ERR101_ILLEGAL_FEE);
    assert_eq!(LedgerError::IllegalFee.message(), "E101: illegal fee");
    assert_eq!(LedgerError::Unauthorized.message(), "E100: no permission to invoke this");
    assert_eq!(LedgerError::InsufficientFunds.message(), "E22: not enough tokens in deposit");
    assert_eq!(LedgerError::NonceExhausted.message(), "ERR26: Incorrent request nonce");
    assert_ne!(LedgerError::TooEarly.message(), LedgerError::RequestExpired.message());
}
