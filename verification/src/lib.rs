//! Window session coordinator for a multi-window markdown editor shell.
//!
//! The coordinator decides how OS-level launch, relaunch, window-creation,
//! tab-transfer and close-request events are handled: which file path a
//! freshly opened window should load, which label a new window receives,
//! where a tab-transfer message is delivered, and whether closing a window
//! ends the whole process. The host runtime that owns the actual windows
//! performs the effects; this crate holds and verifies the decisions.

pub mod labels;
pub mod messages;
pub mod nav;
pub mod paths;
pub mod registry;
pub mod state;
