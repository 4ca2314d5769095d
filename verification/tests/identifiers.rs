use chainscore::ids::{derive_confirmation_id, derive_request_id, same_bytes, same_hash};
use chainscore::request::Confirmation;

const ALICE_0: [u8; 32] = [
    5, 208, 250, 4, 106, 116, 96, 7, 78, 71, 197, 21, 168, 208, 247, 138, 206, 240, 27, 86, 8, 182,
    143, 10, 237, 165, 128, 80, 34, 45, 161, 240,
];

const ALICE_1: [u8; 32] = [
    31, 211, 31, 10, 100, 168, 186, 69, 85, 2, 231, 205, 208, 114, 83, 8, 199, 46, 129, 52, 138, 87,
    84, 114, 244, 144, 19, 35, 124, 193, 178, 150,
];

const BOB_0: [u8; 32] = [
    131, 135, 240, 45, 229, 110, 153, 219, 52, 75, 169, 82, 229, 72, 201, 1, 3, 218, 158, 3, 192,
    179, 206, 5, 2, 180, 179, 226, 158, 113, 242, 165,
];

const ALICE_BIG: [u8; 32] = [
    90, 148, 134, 60, 96, 51, 212, 201, 166, 87, 68, 195, 4, 7, 172, 198, 173, 79, 206, 204, 45, 16,
    183, 112, 208, 195, 173, 135, 77, 187, 221, 31,
];

const ZOE_7: [u8; 32] = [
    24, 167, 220, 191, 30, 75, 156, 217, 96, 168, 176, 47, 217, 175, 56, 157, 159, 240, 155, 249,
    88, 21, 63, 93, 185, 234, 137, 199, 74, 169, 41, 150,
];

const ORACLE_A_ON_ALICE_0: [u8; 32] = [
    173, 155, 23, 120, 176, 1, 191, 34, 27, 178, 251, 148, 253, 90, 207, 18, 236, 24, 94, 16, 181,
    41, 235, 16, 82, 18, 56, 45, 102, 219, 163, 187,
];

#[test]
fn request_id_is_keccak_of_borsh_pair() {
    let id = derive_request_id(&"alice.near".to_string(), 0);
    assert_eq!(id, ALICE_0.to_vec());
}

#[test]
fn request_id_depends_on_nonce() {
    let id = derive_request_id(&"alice.near".to_string(), 1);
    assert_eq!(id, ALICE_1.to_vec());
    assert_ne!(id, ALICE_0.to_vec());
}

#[test]
fn request_id_depends_on_account() {
    let id = derive_request_id(&"bob.near".to_string(), 0);
    assert_eq!(id, BOB_0.to_vec());
}

#[test]
fn request_id_takes_all_sixteen_bytes_of_the_nonce() {
    let id = derive_request_id(&"alice.near".to_string(), (1u128 << 127) + 5);
    assert_eq!(id, ALICE_BIG.to_vec());
}

#[test]
fn request_id_encodes_names_as_utf8() {
    let id = derive_request_id(&"zoë".to_string(), 7);
    assert_eq!(id, ZOE_7.to_vec());
}

#[test]
fn request_id_is_32_bytes_and_repeatable() {
    let a = derive_request_id(&"carol.near".to_string(), 42);
    let b = derive_request_id(&"carol.near".to_string(), 42);
    assert_eq!(a.len(), 32);
    assert_eq!(a, b);
}

#[test]
fn confirmation_id_is_keccak_of_borsh_pair() {
    let id = derive_confirmation_id(&ALICE_0.to_vec(), &"oracle-a.near".to_string());
    assert_eq!(id, ORACLE_A_ON_ALICE_0.to_vec());
}

#[test]
fn confirmation_carries_its_derived_id() {
    let c = Confirmation::new(&ALICE_0.to_vec(), "oracle-a.near".to_string(), 50);
    assert_eq!(c.confirmation_id(), &ORACLE_A_ON_ALICE_0.to_vec());
    assert_eq!(c.from(), "oracle-a.near");
    assert_eq!(c.data(), 50);
}

#[test]
fn same_bytes_compares_content() {
    assert!(same_bytes(&vec![1, 2, 3], &vec![1, 2, 3]));
    assert!(!same_bytes(&vec![1, 2, 3], &vec![1, 2, 4]));
    assert!(!same_bytes(&vec![1, 2, 3], &vec![1, 2]));
    assert!(same_bytes(&vec![], &vec![]));
}

#[test]
fn same_hash_compares_content() {
    assert!(same_hash(&ALICE_0, &ALICE_0));
    assert!(!same_hash(&ALICE_0, &ALICE_1));
    let mut last = ALICE_0;
    last[31] ^= 1;
    assert!(!same_hash(&ALICE_0, &last));
}
