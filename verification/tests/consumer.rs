use chainscore::client::cs_client::Progress;
use chainscore::{AuthorizedSenders, ChainScore, ChainScoreClient, FeeProvider, LedgerError};

const FEED: [u8; 32] = [6u8; 32];

fn name(s: &str) -> String {
    s.to_string()
}

fn consumer() -> ChainScoreClient {
    ChainScoreClient::new(
        name("consumer.near"),
        name("token.near"),
        name("ledger.near"),
        name("fees.near"),
    )
}

fn setting() -> (FeeProvider, AuthorizedSenders) {
    let mut schedule = FeeProvider::init();
    schedule.set_fee(FEED, 100);
    let mut senders = AuthorizedSenders::new();
    senders.authorize(FEED, name("oracle-a.near"));
    (schedule, senders)
}

#[test]
fn client_keeps_what_it_was_given() {
    let mut client = consumer();
    assert_eq!(client.account(), "consumer.near");
    assert_eq!(client.cs_token(), "token.near");
    assert_eq!(client.cs_contract(), "ledger.near");
    assert_eq!(client.fee_provider(), "fees.near");
    client.set_cs_contract(name("ledger-2.near"));
    assert_eq!(client.cs_contract(), "ledger-2.near");
    assert_eq!(client.account(), "consumer.near");
    assert!(client.request(0).is_none());
}

#[test]
fn drafts_are_numbered_in_order() {
    let mut client = consumer();
    assert_eq!(client.create_request(name("score of x"), 1000), 0);
    assert_eq!(client.create_request(name("score of y"), 500), 1);
    let first = client.request(0).unwrap();
    assert_eq!(first.data(), "score of x");
    assert_eq!(first.cancel_expiration(), 1000);
    assert_eq!(first.progress(), Progress::Draft);
    assert!(first.id().is_none());
    assert_eq!(first.final_data(), None);
    assert_eq!(client.request(1).unwrap().data(), "score of y");
    assert!(client.request(2).is_none());
}

#[test]
fn sent_request_stands_on_the_ledger_until_resolved() {
    let (schedule, senders) = setting();
    let mut ledger = ChainScore::new();
    let mut client = consumer();
    let handle = client.create_request(name("score of x"), 1000);
    let id = client
        .send_request(handle, &mut ledger, 10, &schedule, FEED, 1, 100, b"on_score".to_vec(), 100)
        .unwrap();
    assert_eq!(client.request(handle).unwrap().progress(), Progress::Sent);
    assert_eq!(client.request(handle).unwrap().id(), Some(&id));
    let on_ledger = ledger.request(&id).unwrap();
    assert_eq!(on_ledger.sender(), "consumer.near");
    assert_eq!(on_ledger.callback_contract(), "consumer.near");
    assert_eq!(on_ledger.cancel_expiration(), 1010);

    let settled = ledger.confirm_at(20, &schedule, &senders, &id, name("oracle-a.near"), 640);
    let due = settled.unwrap().unwrap();
    assert_eq!(due.callback_contract, "consumer.near");
    assert_eq!(due.callback_function_id, b"on_score".to_vec());
    assert_eq!(client.resolve_request(&due.request_id, due.final_data), Some(handle));
    assert_eq!(client.request(handle).unwrap().progress(), Progress::Resolved);
    assert_eq!(client.request(handle).unwrap().final_data(), Some(640));
    assert_eq!(client.resolve_request(&id, 1), None);
    assert_eq!(client.request(handle).unwrap().final_data(), Some(640));
}

#[test]
fn send_fails_as_the_ledger_does_and_keeps_the_draft() {
    let (schedule, _) = setting();
    let mut ledger = ChainScore::new();
    let mut client = consumer();
    let handle = client.create_request(name("score of x"), 1000);
    let outcome =
        client.send_request(handle, &mut ledger, 10, &schedule, FEED, 1, 99, vec![], 1000);
    assert_eq!(outcome, Err(LedgerError::IllegalFee));
    assert_eq!(client.request(handle).unwrap().progress(), Progress::Draft);
    assert_eq!(ledger.next_nonce_of(&name("consumer.near")), 0);
    let outcome =
        client.send_request(handle, &mut ledger, 10, &schedule, FEED, 1, 100, vec![], 1000);
    assert!(outcome.is_ok());
}

#[test]
fn send_needs_a_draft() {
    let (schedule, _) = setting();
    let mut ledger = ChainScore::new();
    let mut client = consumer();
    let outcome = client.send_request(0, &mut ledger, 10, &schedule, FEED, 1, 100, vec![], 100);
    assert_eq!(outcome, Err(LedgerError::RequestNotFound));
    let handle = client.create_request(name("score of x"), 1000);
    client.send_request(handle, &mut ledger, 10, &schedule, FEED, 1, 100, vec![], 100).unwrap();
    let again = client.send_request(handle, &mut ledger, 11, &schedule, FEED, 1, 100, vec![], 100);
    assert_eq!(again, Err(LedgerError::RequestNotActive));
    assert_eq!(ledger.next_nonce_of(&name("consumer.near")), 1);
}

#[test]
fn cancel_goes_through_the_ledger() {
    let (schedule, _) = setting();
    let mut ledger = ChainScore::new();
    let mut client = consumer();
    assert_eq!(client.cancel_request(0, &mut ledger, 0), Err(LedgerError::RequestNotFound));
    let handle = client.create_request(name("score of x"), 1000);
    assert_eq!(client.cancel_request(handle, &mut ledger, 0), Err(LedgerError::RequestNotActive));
    let id = client
        .send_request(handle, &mut ledger, 0, &schedule, FEED, 1, 130, vec![], 130)
        .unwrap();
    assert_eq!(client.cancel_request(handle, &mut ledger, 999), Err(LedgerError::TooEarly));
    assert_eq!(client.request(handle).unwrap().progress(), Progress::Sent);
    assert_eq!(client.cancel_request(handle, &mut ledger, 1000), Ok(130));
    assert_eq!(client.request(handle).unwrap().progress(), Progress::Cancelled);
    assert_eq!(
        client.cancel_request(handle, &mut ledger, 1001),
        Err(LedgerError::RequestNotActive)
    );
    assert_eq!(client.resolve_request(&id, 5), None);
}

#[test]
fn resolve_ignores_what_was_not_sent() {
    let mut client = consumer();
    client.create_request(name("score of x"), 1000);
    assert_eq!(client.resolve_request(&vec![1, 2, 3], 5), None);
    assert_eq!(client.request(0).unwrap().progress(), Progress::Draft);
}
