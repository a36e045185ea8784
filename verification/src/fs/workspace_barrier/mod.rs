//! Per-export durability barriers.
//!
//! A barrier uses the operation ledger for its intent, for the one claim that
//! authorizes its effect, and for its signed outcome. What is stored here is the current
//! head of each workspace and the immutable cut of each barrier.

pub mod crash_laws;
pub mod digests;
pub mod fault;
pub mod graph;
pub mod judge_laws;
pub mod laws;
pub mod lookup;
pub mod model;
pub mod record_laws;
pub mod records;
pub mod request_laws;
pub mod rule_laws;
pub mod rules;
pub mod run;
pub mod store;
pub mod types;
pub mod value_laws;
pub mod walk_laws;
