use mermark_shell::labels::{format_window_label, u32_to_string};
use mermark_shell::nav::build_nav_target;
use mermark_shell::paths::{is_markdown_file, str_eq, str_ends_with};

#[test]
fn markdown_extensions_are_recognized() {
    assert!(is_markdown_file("notes.md"));
    assert!(is_markdown_file("report.markdown"));
    assert!(is_markdown_file("dir/with spaces/a.md"));
}

#[test]
fn other_extensions_are_rejected() {
    assert!(!is_markdown_file("notes.txt"));
    assert!(!is_markdown_file("notes.md.bak"));
    assert!(!is_markdown_file(""));
    assert!(!is_markdown_file("md"));
}

#[test]
fn suffix_match_is_case_sensitive() {
    assert!(!is_markdown_file("NOTES.MD"));
    assert!(!is_markdown_file("a.Markdown"));
}

#[test]
fn suffix_check_is_exact() {
    assert!(str_ends_with("abc", "bc"));
    assert!(str_ends_with("abc", ""));
    assert!(!str_ends_with("abc", "ab"));
    assert!(!str_ends_with("c", "bc"));
}

#[test]
fn string_equality_by_characters() {
    assert!(str_eq("main", "main"));
    assert!(!str_eq("main", "window-1"));
    assert!(!str_eq("main", "mai"));
    assert!(str_eq("", ""));
}

#[test]
fn decimal_rendering() {
    assert_eq!(u32_to_string(0), "0");
    assert_eq!(u32_to_string(7), "7");
    assert_eq!(u32_to_string(10), "10");
    assert_eq!(u32_to_string(305), "305");
    assert_eq!(u32_to_string(u32::MAX), "4294967295");
}

#[test]
fn window_labels_follow_the_counter() {
    assert_eq!(format_window_label(1), "window-1");
    assert_eq!(format_window_label(99), "window-99");
    assert_eq!(format_window_label(1000000), "window-1000000");
}

#[test]
fn nav_target_without_file_is_bare_entry() {
    assert_eq!(build_nav_target(&None), "index.html");
}

#[test]
fn nav_target_percent_encodes_the_file() {
    assert_eq!(
        build_nav_target(&Some("a b.md".to_string())),
        "index.html?file=a%20b.md"
    );
    assert_eq!(
        build_nav_target(&Some("plain.md".to_string())),
        "index.html?file=plain.md"
    );
    assert_eq!(
        build_nav_target(&Some("notes/tag#1.md".to_string())),
        "index.html?file=notes%2Ftag%231.md"
    );
}
