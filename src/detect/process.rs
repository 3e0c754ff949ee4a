use vstd::prelude::*;

use crate::architecture::{arch_of, Architecture, IMAGE_FILE_MACHINE_UNKNOWN};
use crate::detect::error::Error;

verus! {

/// The machine type code that a process runs as: its own where it runs under
/// emulation (the platform reports a known process machine), else the
/// native machine of the host.
pub open spec fn process_machine_code(process_machine: u16, native_machine: u16) -> u16 {
    if process_machine != IMAGE_FILE_MACHINE_UNKNOWN {
        process_machine
    } else {
        native_machine
    }
}

/// The architecture of a process from the two machine type codes that the
/// platform reports for it: the process machine, which is "unknown" unless
/// the process runs under emulation, and the host's native machine.
///
/// Fails with `InvalidImageFileMachine` where the code that applies (see
/// `process_machine_code`) names no architecture, "unknown" included.
pub fn detect_process_architecture(process_machine: u16, native_machine: u16) -> (r: Result<
    Architecture,
    Error,
>)
    ensures
        r == (match arch_of(process_machine_code(process_machine, native_machine)) {
            Some(a) => Ok(a),
            None => Err(
                Error::InvalidImageFileMachine {
                    machine: process_machine_code(process_machine, native_machine),
                },
            ),
        }),
{
    let machine = if process_machine != IMAGE_FILE_MACHINE_UNKNOWN {
        process_machine
    } else if native_machine == IMAGE_FILE_MACHINE_UNKNOWN {
        return Err(Error::InvalidImageFileMachine { machine: IMAGE_FILE_MACHINE_UNKNOWN });
    } else {
        native_machine
    };
    match Architecture::from_code(machine) {
        Some(a) => Ok(a),
        None => Err(Error::InvalidImageFileMachine { machine }),
    }
}

} // verus!
