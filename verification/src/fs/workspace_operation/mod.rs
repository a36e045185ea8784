//! Durable idempotency ledger for workspace control operations.
//!
//! The ledger stores opaque, already-canonical request digests and exact signed outcome
//! bytes. It does not validate capabilities, sign receipts, or execute workspace
//! effects. Each function decides one step from the bytes stored under an operation's
//! key; the caller serializes the steps and performs the writes.

pub mod codec;
pub mod laws;
pub mod ledger;
pub mod ledger_laws;
pub mod types;
pub mod value_laws;
