use thndrs_ui::help_state::{session_title_can_be_cut, session_title_label, session_ids_can_be_cut, tutorial_lines, TutorialSession};
use thndrs_ui::help_state::{help_page_size, visible_range, help_tabs, update as help_update, HelpApp, HelpKey, HELP_TABS, TIPS};
use thndrs_ui::iocraft::hint_bar::HintToken;
use thndrs_ui::iocraft::welcome::{default_hint_tokens, logo_text, rendered_input_lines, shown_suggestions, RenderedPrefixColor};
use thndrs_ui::screen::{status_parts, ScreenMode, ScreenNavigation};
use thndrs_ui::settings::{setting_groups, SETTING_GROUPS};
use thndrs_ui::tool::{parse_diff, truncate_bash_output, DiffLineKind, TaskItem, TaskState};

#[test]
fn help_test_help_tabs() {
    assert_eq!(HELP_TABS.len(), 5);
    assert_eq!(HELP_TABS[0], "Keyboard Shortcuts");
    assert_eq!(HELP_TABS[4], "Tutorial");
}

#[test]
fn test_tips_not_empty() {
    assert!(!TIPS.is_empty());
}

#[test]
fn help_state_test_help_tabs() {
    assert_eq!(help_tabs(), HELP_TABS);
}

#[test]
fn settings_test_setting_groups() {
    assert_eq!(SETTING_GROUPS.len(), 7);
    assert_eq!(SETTING_GROUPS[0], "General");
    assert_eq!(SETTING_GROUPS[3], "Keyboard");
    assert_eq!(SETTING_GROUPS[4], "AI Model");
    assert_eq!(SETTING_GROUPS[6], "Privacy");
}

#[test]
fn settings_state_test_setting_groups() {
    assert_eq!(setting_groups(), SETTING_GROUPS);
}

#[test]
fn test_screen_modes() {
    assert_ne!(ScreenMode::Welcome, ScreenMode::Chat);
    assert_ne!(ScreenMode::Settings, ScreenMode::Help);
    assert_eq!(ScreenMode::Files, ScreenMode::Files);
}

#[test]
fn status_parts_use_model_name_only_in_chat_mode() {
    let version = Some("0.1.0");
    let (left, right) = status_parts(ScreenMode::Chat, Some("gpt-5"), version);
    assert_eq!(left, "CHAT ");
    assert_eq!(right, "model: gpt-5");

    let (_, right) = status_parts(ScreenMode::Welcome, Some("ignored"), version);
    assert!(right.starts_with("Thunderus v"));
}

#[test]
fn status_parts_fall_back_to_version_in_chat_without_model() {
    let (left, right) = status_parts(ScreenMode::Chat, None, Some("1.2.3"));
    assert_eq!(left, "CHAT ");
    assert_eq!(right, "Thunderus v1.2.3");
    let (left, right) = status_parts(ScreenMode::Files, None, None);
    assert_eq!(left, "FILES ");
    assert_eq!(right, "Thunderus v0.1.0");
}

#[test]
fn test_parse_diff() {
    let diff = "@@ -1,3 +1,4 @@\n context\n-removed\n+added\n context";
    let lines = parse_diff(diff);

    assert_eq!(lines.len(), 5);
    assert_eq!(lines[0].line_kind, DiffLineKind::Header);
    assert_eq!(lines[1].line_kind, DiffLineKind::Context);
    assert_eq!(lines[2].line_kind, DiffLineKind::Removed);
    assert_eq!(lines[3].line_kind, DiffLineKind::Added);
    assert_eq!(lines[4].line_kind, DiffLineKind::Context);
}

#[test]
fn test_task_item_states() {
    let pending = TaskItem::new("Pending task".to_string());
    assert_eq!(pending.state, TaskState::Pending);

    let running = TaskItem::new("Running task".to_string()).running();
    assert_eq!(running.state, TaskState::Running);

    let done = TaskItem::new("Done task".to_string()).done();
    assert_eq!(done.state, TaskState::Done);
}

#[test]
fn test_truncate_bash_output_adds_hidden_line_indicator() {
    let output = (0..55).map(|idx| format!("line {idx}")).collect::<Vec<_>>().join("\n");
    let truncated = truncate_bash_output(&output, 50);

    assert!(truncated.contains("[5 lines hidden]"));
    assert!(truncated.contains("line 0"));
    assert!(!truncated.contains("line 54"));
}

#[test]
fn rendered_input_lines_prefix_first_and_continuation_rows() {
    let lines = rendered_input_lines("hi\nthere", 2);
    assert_eq!(lines.len(), 2);
    assert_eq!(lines[0].prefix, "❯ ");
    assert_eq!(lines[0].text, "hi█");
    assert_eq!(lines[1].prefix, "  ");
    assert_eq!(lines[1].text, "there");
    assert_eq!(lines[0].prefix_color, RenderedPrefixColor::Prompt);
    assert_eq!(lines[1].prefix_color, RenderedPrefixColor::Continuation);
}

#[test]
fn rendered_input_lines_put_cursor_at_end_when_past_it() {
    let lines = rendered_input_lines("abc", 99);
    assert_eq!(lines.len(), 1);
    assert_eq!(lines[0].text, "abc█");
}

#[test]
fn default_hints_include_file_finder_shortcut() {
    let tokens = default_hint_tokens();
    assert!(tokens.iter().any(|token| matches!(token, HintToken::Key(value) if value == "@")));
}

#[test]
fn logo_text_drops_surrounding_newlines() {
    let logo = logo_text();
    assert!(!logo.starts_with('\n'));
    assert!(!logo.ends_with('\n'));
    assert_eq!(logo.lines().count(), 4);
}

#[test]
fn help_test_help_app_new() {
    let app = HelpApp::new(Vec::new());
    assert_eq!(app.selected_tab, 0);
}

#[test]
fn help_test_current_tip() {
    let app = HelpApp::new(Vec::new());
    assert!(!app.current_tip().is_empty());
}

#[test]
fn help_test_next_tip() {
    let mut app = HelpApp::new(Vec::new());
    let first_tip = app.current_tip().to_string();
    app.next_tip();
    assert_ne!(app.current_tip(), first_tip);
}

#[test]
fn help_state_test_help_app_new() {
    let app = HelpApp::new(Vec::new());
    assert_eq!(app.selected_tab, 0);
}

#[test]
fn help_state_test_current_tip() {
    let app = HelpApp::new(Vec::new());
    assert!(!app.current_tip().is_empty());
}

#[test]
fn help_state_test_next_tip() {
    let mut app = HelpApp::new(Vec::new());
    let first_tip = app.current_tip().to_string();
    app.next_tip();
    assert_ne!(app.current_tip(), first_tip);
}

#[test]
fn test_open_settings_and_help() {
    let mut app = ScreenNavigation::new();
    app.screen_mode = ScreenMode::Chat;

    app.open_settings();
    assert_eq!(app.screen_mode, ScreenMode::Settings);
    assert_eq!(app.previous_screen, Some(ScreenMode::Chat));

    app.exit_to_previous_or_chat();
    assert_eq!(app.screen_mode, ScreenMode::Chat);
    assert_eq!(app.previous_screen, None);

    app.open_help();
    assert_eq!(app.screen_mode, ScreenMode::Help);

    app.exit_to_previous_or_chat();
    assert_eq!(app.screen_mode, ScreenMode::Chat);
}

#[test]
fn tutorial_lines_list_recent_sessions_and_the_tip() {
    let none: Vec<TutorialSession> = Vec::new();
    let lines = tutorial_lines("Thunderus v1", "Build: x", &none, "Use @");
    assert_eq!(lines.len(), 15);
    assert_eq!(lines[0], "Quick Start");
    assert_eq!(lines[2], "Thunderus v1");
    assert_eq!(lines[12], "  Use @");
    let sessions: Vec<TutorialSession> = (0..7)
        .map(|i| TutorialSession { title: format!("T{i}"), id: format!("abcdefghij{i}"), elapsed_seconds: 300 })
        .collect();
    assert!(session_ids_can_be_cut(&sessions));
    let lines = tutorial_lines("v", "b", &sessions, "tip");
    assert_eq!(lines.len(), 10 + 2 + 5 + 1 + 5);
    assert_eq!(lines[10], "Recent Conversations");
    assert_eq!(lines[12], "  1. T0 — abcdefgh — 5m ago");
    assert_eq!(lines[16], "  5. T4 — abcdefgh — 5m ago");
    let bad = vec![TutorialSession { title: "t".into(), id: "abcdefgé".into(), elapsed_seconds: 0 }];
    assert!(!session_ids_can_be_cut(&bad));
    let short = vec![TutorialSession { title: "t".into(), id: "abc".into(), elapsed_seconds: 0 }];
    assert_eq!(tutorial_lines("v", "b", &short, "tip")[12], "  1. t — abc — just now");
}

#[test]
fn help_keys_scroll_the_tab_content_within_its_pages() {
    let mut app = HelpApp::new(Vec::new());
    assert_eq!(app.scroll.total, 30);
    help_update(&mut app, HelpKey::Down);
    assert_eq!(app.scroll.offset, 1);
    help_update(&mut app, HelpKey::PageDown);
    assert_eq!(app.scroll.offset, 10);
    help_update(&mut app, HelpKey::Down);
    assert_eq!(app.scroll.offset, 10);
    help_update(&mut app, HelpKey::Esc);
    assert_eq!(app.scroll.offset, 10);
    help_update(&mut app, HelpKey::PageUp);
    assert_eq!(app.scroll.offset, 0);
    help_update(&mut app, HelpKey::PageDown);
    help_update(&mut app, HelpKey::Tab);
    assert_eq!(app.scroll.offset, 0);
    assert_eq!(app.selected_tab, 1);
    app.set_sessions(Vec::new());
    assert_eq!(app.status_message.as_deref(), Some("Session list refreshed"));
}

#[test]
fn help_page_geometry() {
    assert_eq!(help_page_size(28), (25, 21));
    assert_eq!(help_page_size(6), (3, 1));
    assert_eq!(help_page_size(0), (1, 1));
    assert_eq!(visible_range(5, 10, 30), (5, 15));
    assert_eq!(visible_range(40, 10, 30), (29, 30));
    assert_eq!(visible_range(0, 0, 3), (0, 1));
    assert_eq!(visible_range(3, 4, 0), (0, 0));
}

#[test]
fn long_session_titles_are_cut_to_37_bytes_and_dots() {
    assert_eq!(session_title_label("short"), "short");
    let forty = "a".repeat(40);
    assert_eq!(session_title_label(&forty), forty);
    let long = "b".repeat(50);
    assert_eq!(session_title_label(&long), format!("{}...", "b".repeat(37)));
    let straddle = format!("{}é", "c".repeat(36));
    assert!(straddle.len() > 37);
    let over = format!("{straddle}{}", "d".repeat(10));
    assert!(!session_title_can_be_cut(&over));
    assert!(session_title_can_be_cut(&long));
}

#[test]
fn given_suggestions_replace_the_defaults() {
    let defaults = vec!["d".to_string()];
    assert_eq!(shown_suggestions(vec!["First".to_string(), "Second".to_string()], defaults.clone()), vec!["First", "Second"]);
    assert_eq!(shown_suggestions(Vec::new(), defaults), vec!["d"]);
}
