//! The window registry model: the set of live window labels, the identity
//! counter, and the decisions taken over them — window creation, tab-transfer
//! routing, relaunch routing, and the close/shutdown policy.
//!
//! The host runtime owns the real windows; it reports constructions and
//! performs the planned effects, while this registry carries the verified
//! picture of which labels are live.
use vstd::prelude::*;
use vstd::string::StringExecFns;
use crate::labels::{format_window_label, window_label};
use crate::messages::{
    CloseDecision, RelaunchAction, TabTransferPayload, TransferError, WindowPlan, WINDOW_HEIGHT,
    WINDOW_WIDTH, window_title,
};
use crate::nav::{build_nav_target, nav_target};
use crate::paths::{is_markdown_file, is_markdown_path, str_eq};
use crate::state::opt_str_view;

verus! {

/// The character sequences of a sequence of owned strings.
pub open spec fn labels_of(v: Seq<String>) -> Seq<Seq<char>> {
    v.map(|i: int, s: String| s@)
}

/// No label occurs twice.
pub open spec fn distinct_labels(s: Seq<Seq<char>>) -> bool {
    forall|i: int, j: int| 0 <= i < j < s.len() ==> s[i] != s[j]
}

proof fn lemma_remove_preserves_others(s: Seq<Seq<char>>, i: int, l: Seq<char>)
    requires
        0 <= i < s.len(),
        l != s[i],
    ensures
        s.remove(i).contains(l) <==> s.contains(l),
{
    let r = s.remove(i);
    if r.contains(l) {
        let j = choose|j: int| 0 <= j < r.len() && r[j] == l;
        if j < i {
            assert(s[j] == l);
        } else {
            assert(s[j + 1] == l);
        }
    }
    if s.contains(l) {
        let k = choose|k: int| 0 <= k < s.len() && s[k] == l;
        if k < i {
            assert(r[k] == l);
        } else {
            assert(r[k - 1] == l);
        }
    }
}

proof fn lemma_remove_keeps_distinct(s: Seq<Seq<char>>, i: int)
    requires
        0 <= i < s.len(),
        distinct_labels(s),
    ensures
        distinct_labels(s.remove(i)),
        !s.remove(i).contains(s[i]),
{
    let r = s.remove(i);
    assert forall|a: int, b: int| 0 <= a < b < r.len() implies r[a] != r[b] by {
        let sa: int = if a < i { a } else { a + 1 };
        let sb: int = if b < i { b } else { b + 1 };
        assert(r[a] == s[sa]);
        assert(r[b] == s[sb]);
    }
    assert forall|j: int| 0 <= j < r.len() implies r[j] != s[i] by {
        if j < i {
            assert(r[j] == s[j]);
        } else {
            assert(r[j] == s[j + 1]);
        }
    }
    if r.contains(s[i]) {
        let j = choose|j: int| 0 <= j < r.len() && r[j] == s[i];
    }
}

/// The live window labels and the identity counter, as the coordinator
/// sees them.
pub struct WindowRegistry {
    next_id: u32,
    live: Vec<String>,
}

impl WindowRegistry {
    /// The labels of the currently live windows, in registration order.
    pub closed spec fn labels(&self) -> Seq<Seq<char>> {
        labels_of(self.live@)
    }

    /// The next identity the counter will hand out; it only ever grows.
    pub closed spec fn counter(&self) -> nat {
        self.next_id as nat
    }

    /// A window with this label is live.
    pub open spec fn is_live(&self, label: Seq<char>) -> bool {
        self.labels().contains(label)
    }

    /// Well-formedness: no two live windows share a label.
    pub open spec fn wf(&self) -> bool {
        distinct_labels(self.labels())
    }

    /// The registry at process start: no windows, counter at one.
    pub fn new() -> (r: Self)
        ensures
            r.wf(),
            r.labels() == Seq::<Seq<char>>::empty(),
            r.counter() == 1,
    {
        let r = WindowRegistry { next_id: 1, live: Vec::new() };
        proof {
            assert(r.labels() =~= Seq::<Seq<char>>::empty());
        }
        r
    }

    /// The counter value the next window identity will be drawn from.
    pub fn next_counter(&self) -> (n: u32)
        ensures
            n as nat == self.counter(),
    {
        self.next_id
    }

    /// How many windows are live.
    pub fn window_count(&self) -> (n: usize)
        ensures
            n == self.labels().len(),
    {
        self.live.len()
    }

    /// The position of `label` among the live windows, if it is live.
    fn index_of_label(&self, label: &str) -> (r: Option<usize>)
        ensures
            match r {
                Some(i) => i < self.labels().len() && self.labels()[i as int] == label@,
                None => !self.is_live(label@),
            },
    {
        let mut i: usize = 0;
        while i < self.live.len()
            invariant
                i <= self.live.len(),
                forall|j: int| 0 <= j < i ==> self.labels()[j] != label@,
            decreases self.live.len() - i,
        {
            if str_eq(self.live[i].as_str(), label) {
                proof {
                    assert(self.labels()[i as int] == label@);
                }
                return Some(i);
            }
            i += 1;
        }
        proof {
            if self.is_live(label@) {
                let j = choose|j: int|
                    0 <= j < self.labels().len() && self.labels()[j] == label@;
            }
        }
        None
    }

    /// Whether a window with this label is live.
    pub fn contains_label(&self, label: &str) -> (r: bool)
        ensures
            r == self.is_live(label@),
    {
        self.index_of_label(label).is_some()
    }

    /// The labels of all live windows; their order carries no meaning.
    pub fn list_labels(&self) -> (r: Vec<String>)
        ensures
            labels_of(r@) == self.labels(),
    {
        let mut out: Vec<String> = Vec::new();
        let mut i: usize = 0;
        while i < self.live.len()
            invariant
                i <= self.live.len(),
                out@.len() == i,
                forall|j: int| 0 <= j < i ==> out@[j]@ == self.labels()[j],
            decreases self.live.len() - i,
        {
            out.push(self.live[i].clone());
            i += 1;
        }
        proof {
            assert(labels_of(out@) =~= self.labels());
        }
        out
    }

    /// Allocate the next window identity and lay out the construction plan:
    /// a fresh `window-<n>` label, the navigation target (with the file to
    /// open encoded into it, when one is given), the fixed title, the fixed
    /// initial size, resizable and centered. The host runtime builds the
    /// window from the plan and reports success through `window_created`.
    pub fn create_window(&mut self, file_path: &Option<String>) -> (plan: WindowPlan)
        requires
            old(self).counter() < u32::MAX as nat,
        ensures
            plan.label@ == window_label(old(self).counter()),
            plan.url@ == nav_target(opt_str_view(*file_path)),
            plan.title@ == window_title(),
            plan.width == WINDOW_WIDTH,
            plan.height == WINDOW_HEIGHT,
            plan.resizable,
            plan.centered,
            final(self).counter() == old(self).counter() + 1,
            final(self).labels() == old(self).labels(),
    {
        let id = self.next_id;
        self.next_id = self.next_id + 1;
        let label = format_window_label(id);
        let url = build_nav_target(file_path);
        WindowPlan {
            label,
            url,
            title: String::from_str("MerMark Editor"),
            width: WINDOW_WIDTH,
            height: WINDOW_HEIGHT,
            resizable: true,
            centered: true,
        }
    }

    /// Record that the host runtime constructed a window with this label.
    /// The host never holds two live windows under one label, so the label
    /// must not be live yet.
    pub fn window_created(&mut self, label: String)
        requires
            !old(self).is_live(label@),
        ensures
            final(self).labels() == old(self).labels().push(label@),
            final(self).counter() == old(self).counter(),
            old(self).wf() ==> final(self).wf(),
    {
        self.live.push(label);
        proof {
            assert(self.labels() =~= old(self).labels().push(label@));
            if old(self).wf() {
                assert forall|i: int, j: int|
                    0 <= i < j < self.labels().len() implies self.labels()[i]
                    != self.labels()[j] by {
                    if j < self.labels().len() - 1 {
                    } else {
                        assert(old(self).labels()[i] == self.labels()[i]);
                    }
                }
            }
        }
    }

    /// Route a tab transfer: when the target window is live, the payload is
    /// to be delivered to its content layer and the target focused (a
    /// fire-and-forget notification); when it is not, the transfer fails at
    /// once with `TargetWindowNotFound` and nothing is queued or mutated.
    pub fn transfer_tab(
        &self,
        file_path: String,
        source_window: String,
        target_window: String,
    ) -> (r: Result<TabTransferPayload, TransferError>)
        ensures
            self.is_live(target_window@) ==> (r matches Ok(p) && p.file_path@ == file_path@
                && p.source_window@ == source_window@ && p.target_window@ == target_window@),
            !self.is_live(target_window@) ==> (r matches Err(e) && (e matches
                TransferError::TargetWindowNotFound { target } && target@ == target_window@)),
    {
        if self.contains_label(target_window.as_str()) {
            Ok(TabTransferPayload { file_path, source_window, target_window })
        } else {
            Err(TransferError::TargetWindowNotFound { target: target_window })
        }
    }

    /// Route a single-instance relaunch carrying the new instance's argument
    /// list: a markdown path in the first argument position is delivered to
    /// the live `main` window as an open-file event with focus; without one,
    /// `main` is only focused; without a live `main` window, nothing happens.
    pub fn handle_relaunch(&self, args: &Vec<String>) -> (r: RelaunchAction)
        ensures
            ({
                let qualifying = args@.len() > 1 && is_markdown_path(args@[1]@);
                let main_live = self.is_live("main"@);
                &&& (qualifying && main_live) ==> (r matches RelaunchAction::OpenInMain {
                    file_path,
                } && file_path@ == args@[1]@)
                &&& (!qualifying && main_live) ==> (r matches RelaunchAction::FocusMain)
                &&& !main_live ==> (r matches RelaunchAction::NoAction)
            }),
    {
        let main_live = self.contains_label("main");
        if args.len() > 1 && is_markdown_file(args[1].as_str()) {
            if main_live {
                RelaunchAction::OpenInMain { file_path: args[1].clone() }
            } else {
                RelaunchAction::NoAction
            }
        } else {
            if main_live {
                RelaunchAction::FocusMain
            } else {
                RelaunchAction::NoAction
            }
        }
    }

    /// Decide a close request for the window labeled `label`. With at most
    /// one live window the default close stands and the process may
    /// terminate. With more, only the requested window is destroyed — it
    /// leaves the registry, every other window stays live — and the default
    /// close is suppressed, so the process keeps running.
    pub fn handle_close_requested(&mut self, label: &str) -> (d: CloseDecision)
        requires
            old(self).wf(),
        ensures
            final(self).wf(),
            final(self).counter() == old(self).counter(),
            old(self).labels().len() <= 1 ==> (d == CloseDecision::AllowClose
                && final(self).labels() == old(self).labels()),
            old(self).labels().len() > 1 ==> d == CloseDecision::DestroyOnly,
            old(self).labels().len() > 1 && old(self).is_live(label@) ==> {
                &&& final(self).labels().len() == old(self).labels().len() - 1
                &&& !final(self).is_live(label@)
                &&& forall|l: Seq<char>|
                    l != label@ ==> (final(self).is_live(l) <==> old(self).is_live(l))
            },
            old(self).labels().len() > 1 && !old(self).is_live(label@) ==> final(self).labels()
                == old(self).labels(),
    {
        if self.live.len() <= 1 {
            return CloseDecision::AllowClose;
        }
        match self.index_of_label(label) {
            Some(i) => {
                proof {
                    let ls = self.labels();
                    lemma_remove_keeps_distinct(ls, i as int);
                    assert forall|l: Seq<char>|
                        l != label@ implies (ls.remove(i as int).contains(l)
                        <==> ls.contains(l)) by {
                        lemma_remove_preserves_others(ls, i as int, l);
                    }
                }
                self.live.remove(i);
                proof {
                    assert(self.labels() =~= old(self).labels().remove(i as int));
                }
            },
            None => {},
        }
        CloseDecision::DestroyOnly
    }
}

} // verus!
