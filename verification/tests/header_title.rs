use thndrs_ui::state::header::{derive_task_title, title_cut_is_valid};

#[test]
fn test_derive_task_title_empty() {
    assert_eq!(derive_task_title(""), "New Session");
    assert_eq!(derive_task_title("   "), "New Session");
}

#[test]
fn test_derive_task_title_multiline() {
    let result = derive_task_title("First line\nSecond line\nThird line");
    assert_eq!(result, "First line");
}

#[test]
fn derive_task_title_cuts_long_lines_at_a_late_space() {
    let message = "This is a very long message that should be truncated because it exceeds the limit";
    assert!(title_cut_is_valid(message));
    let title = derive_task_title(message);
    assert_eq!(title, "This is a very long message that should be...");
    assert!(title.len() <= 53);
    assert!(title.ends_with("..."));
}

#[test]
fn derive_task_title_cuts_at_47_bytes_without_a_late_space() {
    let message = "a".repeat(60);
    assert_eq!(derive_task_title(&message), format!("{}...", "a".repeat(47)));
}

#[test]
fn derive_task_title_keeps_short_trimmed_line_and_strips_crlf() {
    assert_eq!(derive_task_title("  Fix the login bug \r\nmore"), "Fix the login bug");
    let fifty = "b".repeat(50);
    assert_eq!(derive_task_title(&fifty), fifty);
}

#[test]
fn title_cut_is_invalid_inside_a_multibyte_char() {
    let message = format!("{}é{}", "a".repeat(49), "z".repeat(10));
    assert!(!title_cut_is_valid(&message));
    assert!(title_cut_is_valid("short é message"));
}
