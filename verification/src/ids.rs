//! Identifiers of requests and confirmations.
//!
//! An identifier is the Keccak-256 digest of the Borsh encoding of what it
//! names: a requester and its nonce, or a request and the oracle that
//! confirms it.

use vstd::bytes::*;
use vstd::prelude::*;
use vstd::utf8::*;

verus! {

/// The bytes of a length-prefixed byte string: the length as four
/// little-endian bytes, then the bytes themselves.
pub open spec fn prefixed(bytes: Seq<u8>) -> Seq<u8> {
    spec_u32_to_le_bytes(bytes.len() as u32) + bytes
}

/// The encoding of a requester and a nonce: the account name as a
/// length-prefixed UTF-8 string, then the nonce as sixteen little-endian
/// bytes.
pub open spec fn request_key_bytes(account: Seq<char>, nonce: u128) -> Seq<u8> {
    prefixed(encode_utf8(account)) + spec_u128_to_le_bytes(nonce)
}

/// The encoding of a request and a confirming oracle: the request identifier
/// as a length-prefixed byte string, then the oracle's account name as a
/// length-prefixed UTF-8 string.
pub open spec fn confirmation_key_bytes(request_id: Seq<u8>, from: Seq<char>) -> Seq<u8> {
    prefixed(request_id) + prefixed(encode_utf8(from))
}

/// Whether a name can be length-prefixed: its UTF-8 encoding is at most
/// `u32::MAX` bytes long.
pub open spec fn encodable(name: Seq<char>) -> bool {
    encode_utf8(name).len() <= u32::MAX
}

/// The Keccak-256 digest of a byte string.
pub uninterp spec fn keccak256_digest(bytes: Seq<u8>) -> Seq<u8>;

/// The identifier of the request that `account` makes with `nonce`.
pub open spec fn request_id_of(account: Seq<char>, nonce: u128) -> Seq<u8> {
    keccak256_digest(request_key_bytes(account, nonce))
}

/// The identifier of the confirmation that `from` gives to `request_id`.
pub open spec fn confirmation_id_of(request_id: Seq<u8>, from: Seq<char>) -> Seq<u8> {
    keccak256_digest(confirmation_key_bytes(request_id, from))
}

/// Calls `borsh::to_vec` on the pair of an account name and a nonce.
///
/// Trusted: Borsh writes a pair as its first part followed by its second, a
/// string as the length of its UTF-8 bytes in a little-endian `u32` followed
/// by those bytes, and a `u128` as its sixteen little-endian bytes. It fails
/// only on a string longer than `u32::MAX` bytes, which is excluded here.
#[verifier::external_body]
pub(crate) fn encode_request_key(account: &String, nonce: u128) -> (out: Vec<u8>)
    requires
        encodable(account@),
    ensures
        out@ == request_key_bytes(account@, nonce),
{
    near_sdk::borsh::to_vec(&(account, nonce)).unwrap()
}

/// Calls `borsh::to_vec` on the pair of a request identifier and an account
/// name.
///
/// Trusted: Borsh writes a pair as its first part followed by its second,
/// and a byte vector or a string as the number of its bytes in a
/// little-endian `u32` followed by those bytes. It fails only where one of
/// the two is longer than `u32::MAX` bytes, which is excluded here.
#[verifier::external_body]
pub(crate) fn encode_confirmation_key(request_id: &Vec<u8>, from: &String) -> (out: Vec<u8>)
    requires
        request_id@.len() <= u32::MAX,
        encodable(from@),
    ensures
        out@ == confirmation_key_bytes(request_id@, from@),
{
    near_sdk::borsh::to_vec(&(request_id, from)).unwrap()
}

/// Calls `near_sdk::env::keccak256`.
///
/// Trusted: the host returns the Keccak-256 digest of the bytes it is given,
/// 32 bytes long and the same for the same bytes wherever it runs. The host
/// meters the call; a transaction that runs out of gas is halted as a whole
/// and nothing returns.
#[verifier::external_body]
pub(crate) fn keccak256(bytes: &Vec<u8>) -> (digest: Vec<u8>)
    ensures
        digest@ == keccak256_digest(bytes@),
        digest@.len() == 32,
{
    near_sdk::env::keccak256(bytes.as_slice())
}

/// Calls `near_sdk::env::block_timestamp`.
///
/// Trusted: the host returns the time of the current block, in nanoseconds
/// since the Unix epoch. Nothing is known of the value. The host meters the
/// call as it does every other.
#[verifier::external_body]
pub(crate) fn block_timestamp() -> u64 {
    near_sdk::env::block_timestamp()
}

/// Derives the identifier of the request that `account` makes with `nonce`.
pub fn derive_request_id(account: &String, nonce: u128) -> (id: Vec<u8>)
    requires
        encodable(account@),
    ensures
        id@ == request_id_of(account@, nonce),
        id@.len() == 32,
{
    let key = encode_request_key(account, nonce);
    keccak256(&key)
}

/// Derives the identifier of the confirmation that `from` gives to the
/// request `request_id`.
pub fn derive_confirmation_id(request_id: &Vec<u8>, from: &String) -> (id: Vec<u8>)
    requires
        request_id@.len() <= u32::MAX,
        encodable(from@),
    ensures
        id@ == confirmation_id_of(request_id@, from@),
        id@.len() == 32,
{
    let key = encode_confirmation_key(request_id, from);
    keccak256(&key)
}

/// Whether two byte strings are the same.
pub fn same_bytes(a: &Vec<u8>, b: &Vec<u8>) -> (same: bool)
    ensures
        same == (a@ == b@),
{
    if a.len() != b.len() {
        return false;
    }
    let mut i: usize = 0;
    while i < a.len()
        invariant
            a.len() == b.len(),
            i <= a.len(),
            forall|k: int| 0 <= k < i ==> a@[k] == b@[k],
        decreases a.len() - i,
    {
        if a[i] != b[i] {
            return false;
        }
        i += 1;
    }
    assert(a@ =~= b@);
    true
}

/// Whether two 32-byte hashes are the same.
pub fn same_hash(a: &[u8; 32], b: &[u8; 32]) -> (same: bool)
    ensures
        same == (a@ == b@),
{
    let mut i: usize = 0;
    while i < 32
        invariant
            i <= 32,
            forall|k: int| 0 <= k < i ==> a@[k] == b@[k],
        decreases 32 - i,
    {
        if a[i] != b[i] {
            return false;
        }
        i += 1;
    }
    assert(a@ =~= b@);
    true
}

/// Two keys of requests are the same only if they name the same requester
/// and the same nonce.
pub proof fn lemma_request_key_injective(a: Seq<char>, m: u128, b: Seq<char>, n: u128)
    requires
        encodable(a),
        encodable(b),
        request_key_bytes(a, m) == request_key_bytes(b, n),
    ensures
        a == b,
        m == n,
{
    lemma_auto_spec_u32_to_from_le_bytes();
    lemma_auto_spec_u128_to_from_le_bytes();
    let ea = encode_utf8(a);
    let eb = encode_utf8(b);
    let na = ea.len() as int;
    let nb = eb.len() as int;
    let ka = request_key_bytes(a, m);
    let kb = request_key_bytes(b, n);
    let la = spec_u32_to_le_bytes(ea.len() as u32);
    let lb = spec_u32_to_le_bytes(eb.len() as u32);
    assert(ka.subrange(0, 4) =~= la);
    assert(kb.subrange(0, 4) =~= lb);
    assert(spec_u32_from_le_bytes(la) == ea.len() as u32);
    assert(spec_u32_from_le_bytes(lb) == eb.len() as u32);
    assert(ea.len() == eb.len());
    assert(ka.subrange(4, 4 + na) =~= ea);
    assert(kb.subrange(4, 4 + nb) =~= eb);
    assert(ea == eb);
    encode_utf8_decode_utf8(a);
    encode_utf8_decode_utf8(b);
    assert(ka.subrange(4 + na, ka.len() as int) =~= spec_u128_to_le_bytes(m));
    assert(kb.subrange(4 + nb, kb.len() as int) =~= spec_u128_to_le_bytes(n));
    assert(spec_u128_from_le_bytes(spec_u128_to_le_bytes(m)) == m);
    assert(spec_u128_from_le_bytes(spec_u128_to_le_bytes(n)) == n);
}

} // verus!
