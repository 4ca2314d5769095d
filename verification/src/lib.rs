//! Request ledger of an oracle network.
//!
//! A consumer lodges a request together with a payment, oracle nodes confirm
//! it with the values they observed, and the ledger settles the request on
//! the lower median of those values once enough of them have come in, or
//! lets the sender take the payment back after the deadline.

pub mod aggregator;
pub mod authorized_senders;
pub mod client;
pub mod errors;
pub mod ids;
pub mod laws;
pub mod ledger;
pub mod nonces;
pub mod request;
pub mod settlement;
pub mod store;

pub use authorized_senders::AuthorizedSenders;
pub use client::cs_client::ChainScoreClient;
pub use client::fee_provider::FeeProvider;
pub use errors::LedgerError;
pub use ledger::ChainScore;
pub use nonces::NonceRegistry;
pub use request::{Confirmation, Request, RequestState};
