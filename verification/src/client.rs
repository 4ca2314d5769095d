//! What a consumer of the ledger holds: its own requests, and the fee
//! schedule it pays by.

pub mod cs_client;
pub mod fee_provider;
