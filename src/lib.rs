//! A ledger of cross-border remittance intents submitted through relayers.
//!
//! Submissions are protected against replay by per-sender nonces, each
//! remittance is keyed by a content-derived identifier, and cash-out and
//! dispute notifications are gated on the existence of that identifier.
pub mod identifier;
pub mod laws;
pub mod pallet;
pub mod store;
pub mod types;
