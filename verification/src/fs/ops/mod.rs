//! Operations on files.

pub mod io;
pub mod io_laws;
