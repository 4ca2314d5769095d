//! The ways in which an operation of the ledger can be turned down.

use vstd::prelude::*;

verus! {

/// Why the ledger refused an operation. A refused operation changes nothing.
#[derive(Clone, Copy, Debug, PartialEq, Eq, Structural)]
pub enum LedgerError {
    /// The deadline of a new request does not lie in the future.
    InvalidExpiration,
    /// The payment is below the fee of the requested feed.
    IllegalFee,
    /// The fee schedule has no entry for the requested feed.
    InvalidSpec,
    /// No request carries the given identifier.
    RequestNotFound,
    /// The request has been resolved, cancelled or has expired.
    RequestNotActive,
    /// A confirmation arrived at or after the deadline.
    RequestExpired,
    /// The caller may not do this.
    Unauthorized,
    /// The oracle has already confirmed this request.
    DuplicateConfirmation,
    /// A cancellation arrived before the deadline.
    TooEarly,
    /// The payer cannot cover the payment.
    InsufficientFunds,
    /// A request with the derived identifier is already on the ledger.
    DuplicateRequest,
    /// The requester has used up every nonce.
    NonceExhausted,
}

pub const ERR26_INCORRECT_NONCE: &'static str = "ERR26: Incorrent request nonce";

pub const ERR27_INVALID_EXPIRATION: &'static str = "ERR27: Invalid request expiration time";

pub const ERR28_REQUEST_NOT_FOUND: &'static str = "ERR28: request not found";

pub const ERR29_REQUEST_NOT_ACTIVE: &'static str = "ERR29: request is not active";

pub const ERR30_REQUEST_EXPIRED: &'static str = "ERR30: request has expired";

pub const ERR31_DUPLICATE_CONFIRMATION: &'static str = "ERR31: oracle has already confirmed";

pub const ERR32_TOO_EARLY: &'static str = "ERR32: request has not expired yet";

pub const ERR33_DUPLICATE_REQUEST: &'static str = "ERR33: request already exists";

pub const ERR22_NOT_ENOUGH_TOKENS: &'static str = "E22: not enough tokens in deposit";

pub const ERR100_NOT_ALLOWED: &'static str = "E100: no permission to invoke this";

pub const ERR101_ILLEGAL_FEE: &'static str = "E101: illegal fee";

pub const ERR102_INVALID_TOKEN_ID: &'static str = "E102: invalid token id";

impl LedgerError {
    /// The text that stands for this error.
    pub open spec fn text(self) -> Seq<char> {
        match self {
            LedgerError::InvalidExpiration => ERR27_INVALID_EXPIRATION@,
            LedgerError::IllegalFee => ERR101_ILLEGAL_FEE@,
            LedgerError::InvalidSpec => ERR102_INVALID_TOKEN_ID@,
            LedgerError::RequestNotFound => ERR28_REQUEST_NOT_FOUND@,
            LedgerError::RequestNotActive => ERR29_REQUEST_NOT_ACTIVE@,
            LedgerError::RequestExpired => ERR30_REQUEST_EXPIRED@,
            LedgerError::Unauthorized => ERR100_NOT_ALLOWED@,
            LedgerError::DuplicateConfirmation => ERR31_DUPLICATE_CONFIRMATION@,
            LedgerError::TooEarly => ERR32_TOO_EARLY@,
            LedgerError::InsufficientFunds => ERR22_NOT_ENOUGH_TOKENS@,
            LedgerError::DuplicateRequest => ERR33_DUPLICATE_REQUEST@,
            LedgerError::NonceExhausted => ERR26_INCORRECT_NONCE@,
        }
    }

    /// The message to report for this error.
    pub fn message(&self) -> (m: &'static str)
        ensures
            m@ == self.text(),
    {
        match self {
            LedgerError::InvalidExpiration => ERR27_INVALID_EXPIRATION,
            LedgerError::IllegalFee => ERR101_ILLEGAL_FEE,
            LedgerError::InvalidSpec => ERR102_INVALID_TOKEN_ID,
            LedgerError::RequestNotFound => ERR28_REQUEST_NOT_FOUND,
            LedgerError::RequestNotActive => ERR29_REQUEST_NOT_ACTIVE,
            LedgerError::RequestExpired => ERR30_REQUEST_EXPIRED,
            LedgerError::Unauthorized => ERR100_NOT_ALLOWED,
            LedgerError::DuplicateConfirmation => ERR31_DUPLICATE_CONFIRMATION,
            LedgerError::TooEarly => ERR32_TOO_EARLY,
            LedgerError::InsufficientFunds => ERR22_NOT_ENOUGH_TOKENS,
            LedgerError::DuplicateRequest => ERR33_DUPLICATE_REQUEST,
            LedgerError::NonceExhausted => ERR26_INCORRECT_NONCE,
        }
    }
}

} // verus!
