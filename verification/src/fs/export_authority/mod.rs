//! Durable per-export authority and session state.
//!
//! Authority inputs arrive already verified: nothing here parses capabilities or
//! signs receipts. Every transition and fenced mutation is decided here from plain
//! values; storage is read and written by the caller.

pub mod admission;
pub mod laws;
pub mod model;
pub mod mutation;
pub mod mutation_laws;
pub mod plan_laws;
pub mod record_laws;
pub mod records;
pub mod repeat_laws;
pub mod rule_laws;
pub mod rules;
pub mod run;
pub mod run_laws;
pub mod shard;
pub mod shard_laws;
pub mod store_laws;
pub mod types;
pub mod value_laws;
