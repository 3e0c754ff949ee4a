//! Detection of the architecture of executables and processes.

pub mod current;
pub mod error;
pub mod headers;
pub mod pe;
pub mod process;
