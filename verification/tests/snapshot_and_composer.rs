use thndrs_ui::fuzzy_finder::{FileEntry, SortMode};
use thndrs_ui::snapshot_capture::{snapshot_contents, SnapshotCapture, SnapshotMode};
use thndrs_ui::state::composer::{ComposerMode, ComposerState};

#[test]
fn snapshot_capture_numbers_files_when_enabled() {
    let mut capture = SnapshotCapture::new(true, "snapshots".to_string()).with_mode(SnapshotMode::EveryState);
    assert!(capture.is_enabled());
    assert_eq!(capture.capture(), Some("snapshot_0001.txt".to_string()));
    assert_eq!(capture.snapshot_count(), 1);
    assert_eq!(capture.capture_triggered(), None);
    assert_eq!(capture.snapshot_count(), 1);
}

#[test]
fn snapshot_capture_disabled_takes_nothing() {
    let mut capture = SnapshotCapture::new(false, "snapshots".to_string());
    assert_eq!(capture.capture(), None);
    assert_eq!(capture.snapshot_count(), 0);
    // enabled, but the mode a capture starts in is Disabled: still no snapshot
    capture.enable();
    assert_eq!(capture.capture(), None);
    assert_eq!(capture.snapshot_count(), 0);
    capture.set_mode(SnapshotMode::EveryState);
    assert_eq!(capture.capture(), Some("snapshot_0001.txt".to_string()));
    capture.disable();
    assert_eq!(capture.capture(), None);
    assert_eq!(capture.snapshot_count(), 1);
}

#[test]
fn snapshot_capture_triggered_mode_only_takes_triggered() {
    let mut capture = SnapshotCapture::new(true, "snapshots".to_string());
    capture.set_mode(SnapshotMode::Triggered);
    assert_eq!(capture.capture(), None);
    assert_eq!(capture.capture_triggered(), Some("triggered_snapshot_0001.txt".to_string()));
    assert_eq!(capture.snapshot_count(), 1);
}

#[test]
fn snapshot_file_names_pad_to_four_digits() {
    let mut capture = SnapshotCapture::new(true, "s".to_string()).with_mode(SnapshotMode::EveryState);
    capture.snapshot_count = 12344;
    assert_eq!(capture.capture(), Some("snapshot_12345.txt".to_string()));
    capture.snapshot_count = 41;
    assert_eq!(capture.capture(), Some("snapshot_0042.txt".to_string()));
}

#[test]
fn snapshot_contents_writes_header_then_content() {
    let text = snapshot_contents(1, false, "T", "test_event", "test description", "test content");
    assert_eq!(
        text,
        "# Snapshot #1\n# Timestamp: T\n# Event: test_event\n# Description: test description\n\ntest content"
    );
    let text = snapshot_contents(3, true, "T", "e", "d", "c");
    assert!(text.starts_with("# Triggered Snapshot #3\n"));
}

#[test]
fn composer_enters_and_exits_finder() {
    let mut composer = ComposerState::default();
    assert_eq!(composer.composer_mode, ComposerMode::Normal);
    assert!(!composer.is_fuzzy_finder_active());

    let entries = vec![FileEntry {
        path: "/w/a.rs".to_string(),
        relative_path: "a.rs".to_string(),
        modified: None,
        size: 1,
        is_dir: false,
    }];
    composer.enter_fuzzy_finder("/w".to_string(), "see @".to_string(), 4, Some(entries));
    assert!(composer.is_fuzzy_finder_active());
    let finder = composer.fuzzy_finder().expect("finder is open");
    assert_eq!(finder.total_file_count(), 1);
    assert_eq!(finder.original_cursor(), 4);
    assert_eq!(finder.sort_mode(), SortMode::Relevance);

    composer.exit_fuzzy_finder();
    assert!(!composer.is_fuzzy_finder_active());
    assert!(composer.fuzzy_finder().is_none());
}

#[test]
fn composer_without_walk_switches_mode_only() {
    let mut composer = ComposerState::new();
    composer.enter_fuzzy_finder("/w".to_string(), String::new(), 0, None);
    assert!(composer.is_fuzzy_finder_active());
    assert!(composer.fuzzy_finder().is_none());
}

#[test]
fn test_snapshot_capture_disabled() {
    let mut capture = SnapshotCapture::new(false, "snapshots".to_string());
    let result = capture.capture();
    assert!(result.is_none());
    assert_eq!(capture.snapshot_count(), 0);
}

#[test]
fn test_snapshot_capture_enabled() {
    let mut capture = SnapshotCapture::new(true, "snapshots".to_string()).with_mode(SnapshotMode::EveryState);
    let result = capture.capture();
    assert_eq!(result.as_deref(), Some("snapshot_0001.txt"));
    assert_eq!(capture.snapshot_count(), 1);
    let content = snapshot_contents(1, false, "now", "test_event", "test description", "test content");
    assert!(content.contains("Snapshot #1"));
    assert!(content.contains("test_event"));
    assert!(content.contains("test description"));
}

#[test]
fn test_snapshot_capture_triggered() {
    let mut capture = SnapshotCapture::new(true, "snapshots".to_string()).with_mode(SnapshotMode::Triggered);
    assert!(capture.capture().is_none());
    assert_eq!(capture.snapshot_count(), 0);
    let result = capture.capture_triggered();
    assert_eq!(result.as_deref(), Some("triggered_snapshot_0001.txt"));
    assert_eq!(capture.snapshot_count(), 1);
}
