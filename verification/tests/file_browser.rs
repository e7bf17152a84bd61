use thndrs_ui::files::browser::{BrowserEffect, BrowserKey, FileBrowserAction, FileBrowserApp};
use thndrs_ui::files::tree::{build_workspace_index, WalkEntry};

fn opened(effect: &BrowserEffect) -> Option<String> {
    match effect {
        BrowserEffect::Open(path) => Some(path.clone()),
        _ => None,
    }
}

fn debug_browser() -> (FileBrowserApp, BrowserEffect) {
    let mut app = FileBrowserApp::new("/work/debug".to_string(), "debug".to_string());
    let effect = app.load_debug_fixture();
    (app, effect)
}

#[test]
fn debug_fixture_opens_first_file_and_expands_two_levels() {
    let (app, effect) = debug_browser();
    assert_eq!(opened(&effect).as_deref(), Some("module_00/feature_00/file_00.rs"));
    assert_eq!(app.selected_index, 0);
    assert!(!app.is_finder_active());
    let rows = app.tree_rows();
    assert_eq!(rows[0].name, "module_00");
    assert!(rows[0].expanded);
    assert!(rows[0].selected);
    assert_eq!(rows[1].name, "feature_00");
    assert_eq!(rows[1].depth, 1);
    assert!(rows[1].expanded);
    assert_eq!(rows[2].name, "file_00.rs");
    assert_eq!(rows[2].depth, 2);
    assert!(!rows[2].is_dir);
    assert_eq!(app.status_line(), "Debug fixture loaded. Use Up/Down to scroll the tree and content.");
}

#[test]
fn navigation_and_collapse_expand() {
    let (mut app, _) = debug_browser();
    let before = app.visible_entries.len();
    let (action, _) = app.handle_input(BrowserKey::Down);
    assert_eq!(action, FileBrowserAction::NoAction);
    assert_eq!(app.selected_index, 1);
    // feature_00 starts open: Right closes it, and Right again reopens it
    let (_, effect) = app.handle_input(BrowserKey::Right);
    assert!(matches!(effect, BrowserEffect::Nothing));
    assert_eq!(app.visible_entries.len(), before - 8);
    app.handle_input(BrowserKey::Right);
    assert_eq!(app.visible_entries.len(), before);
    // move onto its first file and open it
    app.handle_input(BrowserKey::Down);
    let (_, effect) = app.handle_input(BrowserKey::Enter);
    assert_eq!(opened(&effect).as_deref(), Some("module_00/feature_00/file_00.rs"));
    // Left on a file closes its directory and selects it
    app.handle_input(BrowserKey::Left);
    assert_eq!(app.visible_entries.len(), before - 8);
    assert_eq!(app.visible_entries[app.selected_index].path, "module_00/feature_00");
}

#[test]
fn file_open_results_update_status_and_content() {
    let (mut app, _) = debug_browser();
    app.file_opened("module_00/feature_00/file_00.rs".to_string(), 42);
    assert_eq!(app.status_line(), "Opened module_00/feature_00/file_00.rs");
    assert_eq!(app.content_scroll.total, 42);
    assert_eq!(app.breadcrumb(), "debug > module_00 > feature_00 > file_00.rs");
    app.handle_input(BrowserKey::PageDown);
    assert_eq!(app.content_scroll.offset, 20);
    app.open_failed("missing.rs");
    assert_eq!(app.status_line(), "Could not read missing.rs");
}

#[test]
fn finder_opens_selected_match_and_reveals_it() {
    let (mut app, _) = debug_browser();
    app.handle_input(BrowserKey::Char('@'));
    assert!(app.is_finder_active());
    assert_eq!(app.finder.filtered.len(), 12);
    for ch in "m13f05f07".chars() {
        app.handle_input(BrowserKey::Char(ch));
    }
    assert_eq!(app.finder_query(), "m13f05f07");
    assert!(!app.finder.filtered.is_empty());
    let rows = app.finder_rows();
    assert!(rows[0].0);
    let (action, effect) = app.handle_input(BrowserKey::Enter);
    assert_eq!(action, FileBrowserAction::NoAction);
    let path = opened(&effect).expect("a file to open");
    assert!(path.starts_with("module_13/feature_05/"));
    assert!(!app.is_finder_active());
    assert!(app.expanded_dirs.iter().any(|d| d == "module_13/feature_05"));
}

#[test]
fn finder_backspace_and_escape() {
    let (mut app, _) = debug_browser();
    app.handle_input(BrowserKey::Char('@'));
    app.handle_input(BrowserKey::Char('z'));
    app.handle_input(BrowserKey::Backspace);
    assert_eq!(app.finder_query(), "");
    let (action, _) = app.handle_input(BrowserKey::Esc);
    assert_eq!(action, FileBrowserAction::NoAction);
    assert!(!app.is_finder_active());
    let (action, _) = app.handle_input(BrowserKey::Esc);
    assert_eq!(action, FileBrowserAction::ExitToChat);
    let (action, _) = app.handle_input(BrowserKey::CtrlQ);
    assert_eq!(action, FileBrowserAction::Quit);
    let (_, effect) = app.handle_input(BrowserKey::CtrlR);
    assert!(matches!(effect, BrowserEffect::Reload));
}

fn walk_entries(entries: &[(&str, bool)]) -> Vec<WalkEntry> {
    entries.iter().map(|(p, d)| WalkEntry { relative_path: p.to_string(), is_dir: *d }).collect()
}

#[test]
fn applying_a_workspace_opens_top_directories_and_first_file() {
    let mut app = FileBrowserApp::new("/work/proj".to_string(), "proj".to_string());
    let (tree, files) = build_workspace_index(
        "proj".to_string(),
        &walk_entries(&[("src", true), ("src/main.rs", false), ("README.md", false), ("docs", true), ("docs/a.md", false)]),
    );
    let effect = app.apply_workspace(tree, files);
    assert_eq!(opened(&effect).as_deref(), Some("README.md"));
    let names: Vec<&str> = app.visible_entries.iter().map(|e| e.name.as_str()).collect();
    assert_eq!(names, vec!["docs", "a.md", "src", "main.rs", "README.md"]);
    assert_eq!(app.breadcrumb(), "proj > (no file selected)");

    app.file_opened("gone.rs".to_string(), 3);
    let (tree, files) = build_workspace_index("proj".to_string(), &walk_entries(&[("src", true), ("src/main.rs", false)]));
    let effect = app.refresh_finished(Ok((tree, files)));
    assert!(matches!(effect, BrowserEffect::Nothing));
    assert!(app.active_file.is_none());
    assert_eq!(app.content_scroll.total, 0);
    assert_eq!(app.status_line(), "Workspace refreshed");

    app.refresh_finished(Err("permission denied".to_string()));
    assert_eq!(app.status_line(), "Workspace refresh failed: permission denied");
}

#[test]
fn viewports_report_changes() {
    let (mut app, _) = debug_browser();
    assert!(!app.sync_viewports(10, 20));
    assert!(app.sync_viewports(0, 5));
    assert_eq!(app.tree_scroll.page_size, 1);
    assert_eq!(app.content_scroll.page_size, 5);
    assert!(app.files_fit());
}

#[test]
fn finder_dismissed_leaves_tree_unchanged() {
    let (mut app, _) = debug_browser();
    app.handle_input(BrowserKey::Down);
    app.handle_input(BrowserKey::Down);
    let dirs = app.expanded_dirs.clone();
    let rows = app.visible_entries.len();
    let selected = app.selected_index;
    app.handle_input(BrowserKey::Char('@'));
    app.handle_input(BrowserKey::Char('x'));
    app.handle_input(BrowserKey::Esc);
    assert!(!app.is_finder_active());
    assert_eq!(app.finder_query(), "");
    assert_eq!(app.expanded_dirs, dirs);
    assert_eq!(app.visible_entries.len(), rows);
    assert_eq!(app.selected_index, selected);
}
