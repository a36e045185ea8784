//! Workspace genesis.
//!
//! The inputs are sealed and already verified elsewhere. The durable operation lifecycle
//! is the operation ledger's; what is stored here is the immutable domain result of the
//! genesis effect.

pub mod codec;
pub mod laws;
pub mod request_laws;
pub mod run;
pub mod store;
pub mod types;
pub mod value_laws;
