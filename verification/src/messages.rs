//! The messages and decisions that flow between the coordinator, the host
//! runtime and the content layers of the windows.
use vstd::prelude::*;
use vstd::string::StringExecFns;

verus! {

/// Width, in logical units, of a freshly created window.
pub const WINDOW_WIDTH: u32 = 1200;

/// Height, in logical units, of a freshly created window.
pub const WINDOW_HEIGHT: u32 = 800;

/// The fixed title of every editor window.
pub open spec fn window_title() -> Seq<char> {
    "MerMark Editor"@
}

/// An ephemeral request to move an open document's tab from one window to
/// another; consumed once by the target window's content layer.
#[derive(Clone)]
pub struct TabTransferPayload {
    pub file_path: String,
    pub source_window: String,
    pub target_window: String,
}

/// Why a tab transfer was refused.
#[derive(Debug)]
pub enum TransferError {
    /// The requested target label is not live; nothing was delivered or
    /// queued, and the caller must handle it.
    TargetWindowNotFound { target: String },
}

impl TransferError {
    /// A human-readable account of the error.
    pub fn message(&self) -> (r: String)
        ensures
            self matches TransferError::TargetWindowNotFound { target } ==> r@ == "Window "@
                + target@ + " not found"@,
    {
        match self {
            TransferError::TargetWindowNotFound { target } => {
                let mut s = String::from_str("Window ");
                s.append(target.as_str());
                s.append(" not found");
                s
            },
        }
    }
}

/// Everything the host runtime needs to construct one new window: its
/// identity, its initial navigation target, and its fixed appearance.
pub struct WindowPlan {
    pub label: String,
    pub url: String,
    pub title: String,
    pub width: u32,
    pub height: u32,
    pub resizable: bool,
    pub centered: bool,
}

/// What a single-instance relaunch asks of the host.
pub enum RelaunchAction {
    /// Deliver an open-file event carrying this path to the window labeled
    /// `main`, and focus that window.
    OpenInMain { file_path: String },
    /// Only focus the window labeled `main`.
    FocusMain,
    /// No live `main` window to address: do nothing (relaunch hints are
    /// non-critical, so this is not an error).
    NoAction,
}

/// What a close request for one window comes to.
#[derive(Debug, PartialEq, Eq, Structural)]
pub enum CloseDecision {
    /// The request hit the last live window: the default close stands and
    /// the process is permitted to terminate.
    AllowClose,
    /// Other windows remain: destroy only the requested window, suppress the
    /// default close, and keep the process running.
    DestroyOnly,
}

} // verus!
