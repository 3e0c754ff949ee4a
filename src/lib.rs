//! Determines the CPU architecture that a Portable Executable image targets,
//! from its header bytes alone, including managed (.NET) assemblies whose
//! nominal machine type does not tell their real one.

pub mod architecture;
pub mod detect;
pub mod executable;
pub mod process;
pub mod report;

pub use architecture::Architecture;
pub use detect::error::Error;
pub use process::Process;
