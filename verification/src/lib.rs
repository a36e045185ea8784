//! Key layout, durable records and authority rules of a log-structured network
//! filesystem, as executable functions with proved contracts.

pub mod cli;
pub mod failpoints;
pub mod fault_laws;
pub mod fault_store;
pub mod fs;
pub mod outside;
pub mod replication;
pub mod replication_laws;
pub mod text;
pub mod text_laws;
pub mod wire;
