//! Rules for finding candidate executables on the search path.

use vstd::prelude::*;
use vstd::string::StrSliceExecFns;

verus! {

/// The text that `str::to_lowercase` gives for `s`.
pub uninterp spec fn lower_of(s: Seq<char>) -> Seq<char>;

/// Relies on `str::to_lowercase`: the result depends on the characters alone.
#[verifier::external_body]
fn to_lowercase(s: &str) -> (r: String)
    ensures
        r@ == lower_of(s@),
{
    s.to_lowercase()
}

/// Whether `a` and `b` hold the same characters.
fn same_text(a: &str, b: &str) -> (r: bool)
    ensures
        r == (a@ == b@),
{
    let n = a.unicode_len();
    if n != b.unicode_len() {
        return false;
    }
    let mut i: usize = 0;
    while i < n
        invariant
            n == a@.len() == b@.len(),
            i <= n,
            forall|k: int| 0 <= k < i ==> a@[k] == b@[k],
        decreases n - i,
    {
        if a.get_char(i) != b.get_char(i) {
            return false;
        }
        i = i + 1;
    }
    assert(a@ =~= b@);
    true
}

/// Whether an extension already in lower case is that of an executable
/// image: "exe" or "dll".
pub fn is_executable_lower_extension(lower: &str) -> (r: bool)
    ensures
        r == (lower@ == "exe"@ || lower@ == "dll"@),
{
    same_text(lower, "exe") || same_text(lower, "dll")
}

/// Whether a file extension marks an executable image: "exe" or "dll", in
/// any case.
pub fn is_executable_extension(extension: &str) -> (r: bool)
    ensures
        r == (lower_of(extension@) == "exe"@ || lower_of(extension@) == "dll"@),
{
    let lower = to_lowercase(extension);
    is_executable_lower_extension(lower.as_str())
}

/// The entries of a `;`-separated list, untrimmed: the text before, between
/// and after the separators, empty entries included.
pub open spec fn split_entries(s: Seq<char>) -> Seq<Seq<char>>
    decreases s.len(),
{
    if s.len() == 0 {
        seq![Seq::<char>::empty()]
    } else {
        let init = split_entries(s.drop_last());
        if s.last() == ';' {
            init.push(Seq::<char>::empty())
        } else {
            init.update(init.len() - 1, init.last().push(s.last()))
        }
    }
}

/// The text that `str::trim` gives for `s`.
pub uninterp spec fn trim_of(s: Seq<char>) -> Seq<char>;

/// Relies on `str::trim`: the result depends on the characters alone.
#[verifier::external_body]
fn trim(s: &str) -> (r: &str)
    ensures
        r@ == trim_of(s@),
{
    s.trim()
}

/// The entries of a `;`-separated list, untrimmed, in order; empty entries
/// are kept.
pub fn split_list(list: &str) -> (r: Vec<String>)
    ensures
        r@.len() == split_entries(list@).len(),
        forall|k: int| 0 <= k < r@.len() ==> #[trigger] r@[k]@ == split_entries(list@)[k],
{
    let ghost s = list@;
    let n = list.unicode_len();
    let mut entries: Vec<String> = Vec::new();
    let mut start: usize = 0;
    let mut i: usize = 0;
    while i < n
        invariant
            s == list@,
            n == s.len(),
            start <= i <= n,
            split_entries(s.subrange(0, i as int)).len() == entries@.len() + 1,
            forall|k: int|
                0 <= k < entries@.len() ==> #[trigger] entries@[k]@ == split_entries(
                    s.subrange(0, i as int),
                )[k],
            split_entries(s.subrange(0, i as int)).last() == s.subrange(start as int, i as int),
        decreases n - i,
    {
        let ghost before = split_entries(s.subrange(0, i as int));
        assert(s.subrange(0, i + 1).drop_last() =~= s.subrange(0, i as int));
        let c = list.get_char(i);
        if c == ';' {
            entries.push(String::from_str(list.substring_char(start, i)));
            start = i + 1;
            assert(s.subrange(start as int, i + 1) =~= Seq::<char>::empty());
        } else {
            assert(s.subrange(start as int, i + 1) =~= s.subrange(start as int, i as int).push(c));
        }
        i = i + 1;
        assert(forall|k: int|
            0 <= k < entries@.len() ==> split_entries(s.subrange(0, i as int))[k] == before[k]);
    }
    assert(s.subrange(0, n as int) =~= s);
    entries.push(String::from_str(list.substring_char(start, n)));
    entries
}

/// The directories of a `;`-separated search path, each trimmed, in order;
/// empty entries are kept.
pub fn split_path_list(path: &str) -> (r: Vec<String>)
    ensures
        r@.len() == split_entries(path@).len(),
        forall|k: int| 0 <= k < r@.len() ==> #[trigger] r@[k]@ == trim_of(split_entries(path@)[k]),
{
    let entries = split_list(path);
    let mut dirs: Vec<String> = Vec::new();
    let mut i: usize = 0;
    while i < entries.len()
        invariant
            i <= entries@.len(),
            dirs@.len() == i,
            entries@.len() == split_entries(path@).len(),
            forall|k: int| 0 <= k < entries@.len() ==> #[trigger] entries@[k]@ == split_entries(path@)[k],
            forall|k: int| 0 <= k < i ==> #[trigger] dirs@[k]@ == trim_of(split_entries(path@)[k]),
        decreases entries@.len() - i,
    {
        dirs.push(String::from_str(trim(entries[i].as_str())));
        i = i + 1;
    }
    dirs
}

} // verus!
