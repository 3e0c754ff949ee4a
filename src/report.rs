use vstd::prelude::*;

use crate::architecture::Architecture;

verus! {

/// Whether a detected architecture is listed: every one where `all` is
/// asked for, else only those that differ from the host's.
pub fn is_reported(all: bool, arch: Architecture, host: Architecture) -> (r: bool)
    ensures
        r == (all || arch != host),
{
    all || arch != host
}

} // verus!
