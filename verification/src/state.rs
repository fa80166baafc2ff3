//! The process-wide "file to open" slot.
//!
//! At most one pending file path exists per process. It is written during
//! launch intake (from the argument list) and consumed exactly once by the
//! first window that asks for it: taking it clears the slot, so a second
//! reader observes nothing until a new path is stored.
use vstd::prelude::*;
use crate::paths::is_markdown_path;

verus! {

/// The optional file path waiting to be opened by the first window that asks.
pub struct OpenFileState {
    slot: Option<String>,
}

/// The view of an optional owned string: the character sequence it holds.
pub open spec fn opt_str_view(o: Option<String>) -> Option<Seq<char>> {
    match o {
        Some(s) => Some(s@),
        None => None,
    }
}

/// How one `take` relates the slot before (`pre`) and after (`post`) the
/// call to its result `r`: the caller receives whatever was pending, and
/// the slot is left empty.
pub open spec fn take_transition(
    pre: Option<Seq<char>>,
    post: Option<Seq<char>>,
    r: Option<Seq<char>>,
) -> bool {
    r == pre && post is None
}

impl View for OpenFileState {
    type V = Option<Seq<char>>;

    closed spec fn view(&self) -> Option<Seq<char>> {
        opt_str_view(self.slot)
    }
}

impl OpenFileState {
    /// The slot at process start: empty.
    pub fn new() -> (s: Self)
        ensures
            s@ is None,
    {
        OpenFileState { slot: None }
    }

    /// Store a path, replacing whatever was pending.
    pub fn store(&mut self, path: String)
        ensures
            final(self)@ == Some(path@),
    {
        self.slot = Some(path);
    }

    /// Atomically read and clear the slot: the first caller gets the pending
    /// path, every later caller gets nothing until a new path is stored.
    pub fn take(&mut self) -> (r: Option<String>)
        ensures
            take_transition(old(self)@, final(self)@, opt_str_view(r)),
    {
        self.slot.take()
    }

    /// Launch intake: if the argument list carries a path ending in a
    /// markdown extension in its first position after the program name,
    /// store it; anything else leaves the slot untouched.
    pub fn intake_args(&mut self, args: &Vec<String>)
        ensures
            if args@.len() > 1 && is_markdown_path(args@[1]@) {
                final(self)@ == Some(args@[1]@)
            } else {
                final(self)@ == old(self)@
            },
    {
        if args.len() > 1 {
            let candidate = &args[1];
            if crate::paths::is_markdown_file(candidate.as_str()) {
                self.store(candidate.clone());
            }
        }
    }
}

/// Consume-once: of two `take` calls with no intervening store, the first
/// returns whatever was pending and the second returns nothing.
pub proof fn lemma_take_twice(
    s0: Option<Seq<char>>,
    s1: Option<Seq<char>>,
    s2: Option<Seq<char>>,
    r1: Option<Seq<char>>,
    r2: Option<Seq<char>>,
)
    requires
        take_transition(s0, s1, r1),
        take_transition(s1, s2, r2),
    ensures
        r1 == s0,
        r2 is None,
{
}

} // verus!
