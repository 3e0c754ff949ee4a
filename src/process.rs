use vstd::prelude::*;

verus! {

/// A running process: its id and the file name of its executable.
pub struct Process {
    pub pid: u32,
    pub exe_path: String,
}

/// The text that `String::from_utf16_lossy` decodes from UTF-16 code units.
pub uninterp spec fn utf16_lossy(units: Seq<u16>) -> Seq<char>;

/// Relies on `String::from_utf16_lossy`: the decoded text depends on the
/// code units alone.
#[verifier::external_body]
fn from_utf16_lossy(units: &[u16]) -> (r: String)
    ensures
        r@ == utf16_lossy(units@),
{
    String::from_utf16_lossy(units)
}

/// Whether `k` is where a NUL-terminated name in `units` ends: no NUL
/// before it, and a NUL or the end of the buffer at it.
pub open spec fn is_name_end(units: Seq<u16>, k: int) -> bool {
    &&& 0 <= k <= units.len()
    &&& forall|i: int| 0 <= i < k ==> units[i] != 0
    &&& (k == units.len() || units[k] == 0)
}

/// The length of the name at the start of `units`: up to the first NUL, or
/// the whole buffer where it holds none.
fn name_len(units: &[u16]) -> (k: usize)
    ensures
        is_name_end(units@, k as int),
{
    let mut k: usize = 0;
    while k < units.len()
        invariant
            k <= units@.len(),
            forall|i: int| 0 <= i < k ==> units@[i] != 0,
        decreases units@.len() - k,
    {
        if units[k] == 0 {
            return k;
        }
        k = k + 1;
    }
    k
}

impl Process {
    /// A process with id `pid` whose executable's name is held, as
    /// NUL-terminated UTF-16, in `exe_file`; units that are not valid UTF-16
    /// decode to the replacement character.
    pub fn from_entry(pid: u32, exe_file: &[u16]) -> (r: Process)
        ensures
            r.pid == pid,
            exists|k: int|
                is_name_end(exe_file@, k) && r.exe_path@ == utf16_lossy(
                    #[trigger] exe_file@.subrange(0, k),
                ),
    {
        let k = name_len(exe_file);
        let name = vstd::slice::slice_subrange(exe_file, 0, k);
        let exe_path = from_utf16_lossy(name);
        Process { pid, exe_path }
    }
}

} // verus!
