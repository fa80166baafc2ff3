//! Recognition of markdown file paths by their extension.
use vstd::prelude::*;
use vstd::string::StrSliceExecFns;

verus! {

/// `s` ends with `suffix` (exact, case-sensitive match on characters).
pub open spec fn ends_with(s: Seq<char>, suffix: Seq<char>) -> bool {
    s.len() >= suffix.len() && s.subrange(s.len() - suffix.len(), s.len() as int) == suffix
}

/// A path names a markdown document exactly when it ends in `.md` or
/// `.markdown` (case-sensitive suffix match).
pub open spec fn is_markdown_path(s: Seq<char>) -> bool {
    ends_with(s, ".md"@) || ends_with(s, ".markdown"@)
}

/// Whether `s` ends with `suffix`, character for character.
pub fn str_ends_with(s: &str, suffix: &str) -> (r: bool)
    ensures
        r == ends_with(s@, suffix@),
{
    let n = s.unicode_len();
    let m = suffix.unicode_len();
    if m > n {
        return false;
    }
    let mut i: usize = 0;
    while i < m
        invariant
            i <= m <= n,
            n == s@.len(),
            m == suffix@.len(),
            forall|j: int| 0 <= j < i ==> s@[n - m + j] == suffix@[j],
        decreases m - i,
    {
        let cs = s.get_char(n - m + i);
        let cx = suffix.get_char(i);
        if cs != cx {
            proof {
                assert(s@.subrange(n - m, n as int)[i as int] != suffix@[i as int]);
            }
            return false;
        }
        i += 1;
    }
    proof {
        assert(s@.subrange(n - m, n as int) =~= suffix@);
    }
    true
}

/// Whether two string slices hold the same characters.
pub fn str_eq(a: &str, b: &str) -> (r: bool)
    ensures
        r == (a@ == b@),
{
    let n = a.unicode_len();
    if n != b.unicode_len() {
        return false;
    }
    let mut i: usize = 0;
    while i < n
        invariant
            i <= n,
            n == a@.len(),
            n == b@.len(),
            forall|j: int| 0 <= j < i ==> a@[j] == b@[j],
        decreases n - i,
    {
        if a.get_char(i) != b.get_char(i) {
            return false;
        }
        i += 1;
    }
    proof {
        assert(a@ =~= b@);
    }
    true
}

/// Whether `path` names a markdown document (ends in `.md` or `.markdown`).
pub fn is_markdown_file(path: &str) -> (r: bool)
    ensures
        r == is_markdown_path(path@),
{
    str_ends_with(path, ".md") || str_ends_with(path, ".markdown")
}

} // verus!
