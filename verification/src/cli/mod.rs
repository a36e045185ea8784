//! What the command line decides before it touches storage.

pub mod debug;
pub mod laws;
pub mod password;
