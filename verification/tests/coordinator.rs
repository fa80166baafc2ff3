use mermark_shell::messages::{CloseDecision, RelaunchAction, TransferError};
use mermark_shell::registry::WindowRegistry;
use mermark_shell::state::OpenFileState;

fn args(list: &[&str]) -> Vec<String> {
    list.iter().map(|s| s.to_string()).collect()
}

#[test]
fn intake_stores_markdown_argument() {
    let mut state = OpenFileState::new();
    state.intake_args(&args(&["mermark", "notes.md"]));
    assert_eq!(state.take(), Some("notes.md".to_string()));
}

#[test]
fn intake_ignores_other_extensions() {
    let mut state = OpenFileState::new();
    state.intake_args(&args(&["mermark", "notes.txt"]));
    assert_eq!(state.take(), None);
}

#[test]
fn intake_without_arguments_stores_nothing() {
    let mut state = OpenFileState::new();
    state.intake_args(&args(&["mermark"]));
    assert_eq!(state.take(), None);
}

#[test]
fn take_consumes_once() {
    let mut state = OpenFileState::new();
    state.store("report.markdown".to_string());
    assert_eq!(state.take(), Some("report.markdown".to_string()));
    assert_eq!(state.take(), None);
}

#[test]
fn created_window_labels_count_up() {
    let mut reg = WindowRegistry::new();
    let first = reg.create_window(&None);
    let second = reg.create_window(&None);
    let third = reg.create_window(&None);
    assert_eq!(first.label, "window-1");
    assert_eq!(second.label, "window-2");
    assert_eq!(third.label, "window-3");
}

#[test]
fn window_plan_has_fixed_appearance() {
    let mut reg = WindowRegistry::new();
    let plan = reg.create_window(&None);
    assert_eq!(plan.title, "MerMark Editor");
    assert_eq!(plan.width, 1200);
    assert_eq!(plan.height, 800);
    assert!(plan.resizable);
    assert!(plan.centered);
    assert_eq!(plan.url, "index.html");
}

#[test]
fn window_plan_encodes_file_into_url() {
    let mut reg = WindowRegistry::new();
    let plan = reg.create_window(&Some("my notes/a.md".to_string()));
    assert_eq!(plan.url, "index.html?file=my%20notes%2Fa.md");
}

#[test]
fn registry_tracks_created_windows() {
    let mut reg = WindowRegistry::new();
    assert_eq!(reg.window_count(), 0);
    reg.window_created("main".to_string());
    let plan = reg.create_window(&None);
    reg.window_created(plan.label);
    assert_eq!(reg.window_count(), 2);
    assert!(reg.contains_label("main"));
    assert!(reg.contains_label("window-1"));
    assert!(!reg.contains_label("window-2"));
    let labels = reg.list_labels();
    assert_eq!(labels, vec!["main".to_string(), "window-1".to_string()]);
}

#[test]
fn transfer_to_live_window_carries_payload() {
    let mut reg = WindowRegistry::new();
    reg.window_created("window-1".to_string());
    reg.window_created("window-2".to_string());
    let payload = reg
        .transfer_tab(
            "a.md".to_string(),
            "window-1".to_string(),
            "window-2".to_string(),
        )
        .unwrap();
    assert_eq!(payload.file_path, "a.md");
    assert_eq!(payload.source_window, "window-1");
    assert_eq!(payload.target_window, "window-2");
}

#[test]
fn transfer_to_missing_window_fails_without_mutation() {
    let mut reg = WindowRegistry::new();
    reg.window_created("window-1".to_string());
    let before = reg.list_labels();
    let r = reg.transfer_tab(
        "a.md".to_string(),
        "window-1".to_string(),
        "window-99".to_string(),
    );
    match r {
        Err(TransferError::TargetWindowNotFound { target }) => {
            assert_eq!(target, "window-99");
        }
        Ok(_) => panic!("transfer to a dead window must fail"),
    }
    assert_eq!(reg.list_labels(), before);
}

#[test]
fn transfer_error_message_names_the_window() {
    let err = TransferError::TargetWindowNotFound {
        target: "window-99".to_string(),
    };
    assert_eq!(err.message(), "Window window-99 not found");
}

#[test]
fn relaunch_with_markdown_argument_opens_in_main() {
    let mut reg = WindowRegistry::new();
    reg.window_created("main".to_string());
    let action = reg.handle_relaunch(&args(&["mermark", "report.markdown"]));
    match action {
        RelaunchAction::OpenInMain { file_path } => assert_eq!(file_path, "report.markdown"),
        _ => panic!("a markdown relaunch must address the main window"),
    }
}

#[test]
fn relaunch_without_argument_only_focuses_main() {
    let mut reg = WindowRegistry::new();
    reg.window_created("main".to_string());
    let action = reg.handle_relaunch(&args(&["mermark"]));
    assert!(matches!(action, RelaunchAction::FocusMain));
}

#[test]
fn relaunch_with_other_argument_only_focuses_main() {
    let mut reg = WindowRegistry::new();
    reg.window_created("main".to_string());
    let action = reg.handle_relaunch(&args(&["mermark", "notes.txt"]));
    assert!(matches!(action, RelaunchAction::FocusMain));
}

#[test]
fn relaunch_without_main_window_does_nothing() {
    let mut reg = WindowRegistry::new();
    reg.window_created("window-1".to_string());
    let action = reg.handle_relaunch(&args(&["mermark", "report.markdown"]));
    assert!(matches!(action, RelaunchAction::NoAction));
}

#[test]
fn closing_last_window_permits_termination() {
    let mut reg = WindowRegistry::new();
    reg.window_created("main".to_string());
    let d = reg.handle_close_requested("main");
    assert_eq!(d, CloseDecision::AllowClose);
    assert_eq!(reg.window_count(), 1);
}

#[test]
fn closing_one_of_two_windows_destroys_only_it() {
    let mut reg = WindowRegistry::new();
    reg.window_created("main".to_string());
    reg.window_created("window-1".to_string());
    assert_eq!(reg.window_count(), 2);
    let d = reg.handle_close_requested("window-1");
    assert_eq!(d, CloseDecision::DestroyOnly);
    assert_eq!(reg.window_count(), 1);
    assert!(reg.contains_label("main"));
    assert!(!reg.contains_label("window-1"));
}
