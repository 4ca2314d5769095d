use chainscore::{AuthorizedSenders, ChainScore, FeeProvider, LedgerError, Request, RequestState};

const FEED: [u8; 32] = [3u8; 32];

fn set_block_time(nanos: u64) {
    let mut builder = near_sdk::test_utils::VMContextBuilder::new();
    builder.block_timestamp(nanos);
    near_sdk::env::set_blockchain_interface(near_sdk::MockedBlockchain::new(
        builder.build(),
        near_sdk::test_vm_config(),
        near_sdk::RuntimeFeesConfig::test(),
        vec![],
        Default::default(),
        Default::default(),
        None,
    ));
}

fn name(s: &str) -> String {
    s.to_string()
}

#[test]
fn new_request_needs_a_deadline_after_the_block_time() {
    set_block_time(500);
    let late = Request::new(0, name("alice.near"), FEED, 1, 100, name("alice.near"), vec![], 500);
    assert!(matches!(late, Err(LedgerError::InvalidExpiration)));
    let zero = Request::new(0, name("alice.near"), FEED, 1, 100, name("alice.near"), vec![], 0);
    assert!(matches!(zero, Err(LedgerError::InvalidExpiration)));
    let fine = Request::new(0, name("alice.near"), FEED, 1, 100, name("alice.near"), vec![], 501);
    let request = fine.ok().unwrap();
    assert_eq!(request.cancel_expiration(), 501);
    assert_eq!(request.state(), RequestState::Created);
    assert_eq!(request.id(), &chainscore::ids::derive_request_id(&name("alice.near"), 0));
}

#[test]
fn ledger_reads_the_block_time() {
    let mut schedule = FeeProvider::init();
    schedule.set_fee(FEED, 100);
    schedule.set_quorum(FEED, 2).unwrap();
    let mut senders = AuthorizedSenders::new();
    senders.authorize(FEED, name("oracle-a.near"));
    senders.authorize(FEED, name("oracle-b.near"));
    let mut ledger = ChainScore::new();

    set_block_time(1_000);
    let id = ledger
        .create(&schedule, name("alice.near"), FEED, 1, 100, name("alice.near"), vec![], 1_000, 100)
        .unwrap();
    assert_eq!(ledger.request(&id).unwrap().cancel_expiration(), 2_000);
    assert_eq!(ledger.cancel(&id, &name("alice.near")), Err(LedgerError::TooEarly));

    set_block_time(1_500);
    assert_eq!(ledger.confirm(&schedule, &senders, &id, name("oracle-a.near"), 50), Ok(None));

    set_block_time(2_000);
    assert_eq!(
        ledger.confirm(&schedule, &senders, &id, name("oracle-b.near"), 70),
        Err(LedgerError::RequestExpired)
    );
    assert_eq!(ledger.cancel(&id, &name("alice.near")).unwrap().amount, 100);
    assert_eq!(ledger.request(&id).unwrap().state(), RequestState::Cancelled);
}
