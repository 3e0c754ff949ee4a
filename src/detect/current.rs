use vstd::prelude::*;

use crate::architecture::{arch_of, Architecture};

verus! {

/// The architecture of the machine this process runs on, from the native
/// machine type code that the platform reports for it.
///
/// The platform query is made once per process by the caller; an unknown
/// code means the host cannot be identified, which callers treat as fatal.
pub fn get_current_sys_architecture(native_machine: u16) -> (r: Architecture)
    requires
        arch_of(native_machine) is Some,
    ensures
        arch_of(native_machine) == Some(r),
{
    match Architecture::from_code(native_machine) {
        Some(a) => a,
        None => Architecture::I386,
    }
}

} // verus!
