//! Initial navigation targets: the entry document, with an optional file
//! path percent-encoded into its query string.
use vstd::prelude::*;
use vstd::string::StringExecFns;
use crate::state::opt_str_view;

verus! {

/// What `urlencoding::encode` returns on a string whose characters are `s`:
/// its percent-encoded form, a function of the input characters alone.
pub uninterp spec fn percent_encoded(s: Seq<char>) -> Seq<char>;

/// The navigation target of a new window: the bare entry document, or, when
/// a file is to be opened, the entry document with the percent-encoded path
/// as its query parameter.
pub open spec fn nav_target(file: Option<Seq<char>>) -> Seq<char> {
    match file {
        Some(p) => "index.html?file="@ + percent_encoded(p),
        None => "index.html"@,
    }
}

/// Relies on `urlencoding::encode`: percent-encodes every byte except ASCII
/// alphanumerics and `-`, `_`, `.`, `~`; an empty string stays empty.
#[verifier::external_body]
fn encode_path(s: &str) -> (r: String)
    ensures
        r@ == percent_encoded(s@),
        s@.len() == 0 ==> r@.len() == 0,
{
    urlencoding::encode(s).into_owned()
}

/// The initial navigation target for a window asked to open `file`.
pub fn build_nav_target(file: &Option<String>) -> (r: String)
    ensures
        r@ == nav_target(opt_str_view(*file)),
{
    match file {
        Some(p) => {
            let mut s = String::from_str("index.html?file=");
            let enc = encode_path(p.as_str());
            s.append(enc.as_str());
            s
        },
        None => String::from_str("index.html"),
    }
}

} // verus!
