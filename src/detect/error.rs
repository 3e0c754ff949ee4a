use vstd::prelude::*;

verus! {

/// The header structure of a PE image that failed to parse.
#[derive(Debug, Clone, Copy, PartialEq, Eq, Structural)]
pub enum Structure {
    /// The DOS header: too short, or without the "MZ" signature.
    DosHeader,
    /// The COFF file header.
    FileHeader,
    /// The fixed part of the 32-bit optional header.
    OptionalHeader,
    /// The data directory table: it declares more entries than fit in the
    /// optional header.
    DataDirectories,
    /// A section header.
    SectionHeader,
    /// The CLR (COR20) header.
    ClrHeader,
    /// No declared section contains the CLR header's virtual address.
    ClrHeaderLocation,
}

/// Why an architecture could not be detected.
#[derive(Debug, Clone, Copy, PartialEq, Eq, Structural)]
pub enum Error {
    /// The bytes do not have the shape of the named structure.
    Format { structure: Structure },
    /// A machine type code that names no known architecture.
    InvalidImageFileMachine { machine: u16 },
    /// A read of `len` bytes at `offset` ran past the end of the input.
    UnexpectedEof { offset: u64, len: u64 },
}

} // verus!
