use thndrs_ui::files::content::{preview_lines, prompt_content, prompt_cut_is_valid, MAX_FILE_LINES, MAX_PROMPT_FILE_BYTES};
use thndrs_ui::files::highlight::{choose_theme, highlight_file, highlighted_preview, HighlightSegment};

#[test]
fn preview_keeps_at_most_the_line_cap() {
    assert_eq!(preview_lines("a\r\nb\n"), vec!["a".to_string(), "b".to_string()]);
    let long: String = (0..2500).map(|i| format!("line {i}\n")).collect();
    let shown = preview_lines(&long);
    assert_eq!(shown.len(), MAX_FILE_LINES);
    assert_eq!(shown[0], "line 0");
    assert_eq!(shown[1999], "line 1999");
}

#[test]
fn prompt_text_is_cut_to_the_byte_budget() {
    let short = "hello";
    assert!(prompt_cut_is_valid(short));
    assert_eq!(prompt_content(short), "hello");
    let long = "x".repeat(MAX_PROMPT_FILE_BYTES + 10);
    assert!(prompt_cut_is_valid(&long));
    assert_eq!(prompt_content(&long).len(), MAX_PROMPT_FILE_BYTES);
    // a two-byte char straddling the budget: the cut would panic
    let straddle = format!("{}é", "x".repeat(MAX_PROMPT_FILE_BYTES - 1));
    assert!(!prompt_cut_is_valid(&straddle));
    // ending exactly on the budget with more after it is fine
    let exact = format!("{}éz", "x".repeat(MAX_PROMPT_FILE_BYTES - 2));
    assert!(prompt_cut_is_valid(&exact));
    assert_eq!(prompt_content(&exact), format!("{}é", "x".repeat(MAX_PROMPT_FILE_BYTES - 2)));
}

fn main_rs_lines() -> Vec<String> {
    vec!["fn main() {}".to_string()]
}

#[test]
fn files_test_highlight_file_returns_line_numbers() {
    let lines = highlight_file("src/main.rs", &main_rs_lines());
    assert_eq!(lines[0].line_number, 1);
}

#[test]
fn highlight_test_highlight_file_returns_line_numbers() {
    let lines = highlight_file("src/main.rs", &main_rs_lines());
    assert_eq!(lines[0].line_number, 1);
    let text: String = lines[0].segments.iter().map(|s| s.text.as_str()).collect();
    assert_eq!(text, "fn main() {}");
    // syntect colours Rust, so the line is not one black run
    assert!(lines[0].segments.len() > 1);
}

#[test]
fn highlighted_preview_numbers_lines_and_falls_back_to_plain() {
    let lines = vec!["a".to_string(), "b".to_string()];
    let seg = HighlightSegment { text: "a".to_string(), r: 1, g: 2, b: 3, bold: true };
    let out = highlighted_preview(&lines, Some(vec![Some(vec![seg]), None]));
    assert_eq!(out.len(), 2);
    assert_eq!((out[0].line_number, out[1].line_number), (1, 2));
    assert_eq!((out[0].segments[0].r, out[0].segments[0].bold), (1, true));
    assert_eq!(out[1].segments.len(), 1);
    assert_eq!(out[1].segments[0].text, "b");
    assert_eq!((out[1].segments[0].r, out[1].segments[0].g, out[1].segments[0].b), (0, 0, 0));
    let none = highlighted_preview(&lines, None);
    assert_eq!(none[0].segments[0].text, "a");
    let empty = highlighted_preview(&Vec::new(), None);
    assert_eq!(empty.len(), 1);
    assert_eq!(empty[0].line_number, 1);
    assert!(empty[0].segments.is_empty());
}

#[test]
fn theme_choice_prefers_mocha_then_the_first() {
    let names = vec!["a".to_string(), "base16-mocha.dark".to_string()];
    assert_eq!(choose_theme(&names).as_deref(), Some("base16-mocha.dark"));
    assert_eq!(choose_theme(&vec!["x".to_string(), "y".to_string()]).as_deref(), Some("x"));
    assert_eq!(choose_theme(&Vec::new()), None);
}
