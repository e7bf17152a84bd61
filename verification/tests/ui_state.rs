use thndrs_ui::state::ui::{DiffNavigationState, UIState};

#[test]
fn ui_test_scroll_horizontal() {
    let mut state = UIState::default();
    assert_eq!(state.scroll_horizontal, 0);

    state.scroll_horizontal(10);
    assert_eq!(state.scroll_horizontal, 10);

    state.scroll_horizontal(-5);
    assert_eq!(state.scroll_horizontal, 5);

    state.scroll_horizontal(-10);
    assert_eq!(state.scroll_horizontal, 0);
}

#[test]
fn ui_test_scroll_vertical() {
    let mut state = UIState::default();

    assert_eq!(state.scroll_vertical, 0);

    state.scroll_vertical(20);
    assert_eq!(state.scroll_vertical, 20);

    state.scroll_vertical(-10);
    assert_eq!(state.scroll_vertical, 10);

    state.scroll_vertical(-15);
    assert_eq!(state.scroll_vertical, 0);
}

#[test]
fn ui_test_reset_scroll() {
    let mut state = UIState::default();
    state.scroll_horizontal(50);
    state.scroll_vertical(100);

    assert_eq!(state.scroll_horizontal, 50);
    assert_eq!(state.scroll_vertical, 100);

    state.reset_scroll();

    assert_eq!(state.scroll_horizontal, 0);
    assert_eq!(state.scroll_vertical, 0);
}

#[test]
fn test_diff_navigation_new() {
    let nav = DiffNavigationState::new();
    assert!(nav.selected_patch_index.is_none());
    assert!(nav.selected_hunk_index.is_none());
    assert!(nav.selected_file_path.is_none());
    assert!(!nav.show_hunk_details);
    assert_eq!(nav.hunk_scroll_offset, 0);
}

#[test]
fn test_diff_navigation_reset() {
    let mut nav = DiffNavigationState::new();
    nav.selected_patch_index = Some(5);
    nav.selected_hunk_index = Some(2);
    nav.selected_file_path = Some("test.rs".to_string());
    nav.show_hunk_details = true;
    nav.hunk_scroll_offset = 10;

    nav.reset();

    assert!(nav.selected_patch_index.is_none());
    assert!(nav.selected_hunk_index.is_none());
    assert!(nav.selected_file_path.is_none());
    assert!(!nav.show_hunk_details);
    assert_eq!(nav.hunk_scroll_offset, 0);
}

#[test]
fn test_diff_navigation_next_patch() {
    let mut nav = DiffNavigationState::new();
    nav.next_patch(0);
    assert!(nav.selected_patch_index.is_none());

    nav.next_patch(3);
    assert_eq!(nav.selected_patch_index, Some(0));
    assert!(nav.selected_hunk_index.is_none());

    nav.next_patch(3);
    assert_eq!(nav.selected_patch_index, Some(1));

    nav.next_patch(3);
    assert_eq!(nav.selected_patch_index, Some(2));

    nav.next_patch(3);
    assert_eq!(nav.selected_patch_index, Some(2));
}

#[test]
fn test_diff_navigation_prev_patch() {
    let mut nav = DiffNavigationState::new();
    nav.prev_patch(0);
    assert!(nav.selected_patch_index.is_none());

    nav.prev_patch(3);
    assert_eq!(nav.selected_patch_index, Some(2));

    nav.prev_patch(3);
    assert_eq!(nav.selected_patch_index, Some(1));

    nav.prev_patch(3);
    assert_eq!(nav.selected_patch_index, Some(0));

    nav.prev_patch(3);
    assert_eq!(nav.selected_patch_index, Some(0));
}

#[test]
fn test_diff_navigation_next_hunk() {
    let mut nav = DiffNavigationState::new();
    nav.next_hunk(0);
    assert!(nav.selected_hunk_index.is_none());

    nav.next_hunk(5);
    assert_eq!(nav.selected_hunk_index, Some(0));
    assert_eq!(nav.hunk_scroll_offset, 0);

    nav.next_hunk(5);
    assert_eq!(nav.selected_hunk_index, Some(1));

    nav.next_hunk(5);
    assert_eq!(nav.selected_hunk_index, Some(2));

    for _ in 0..10 {
        nav.next_hunk(5);
    }
    assert_eq!(nav.selected_hunk_index, Some(4));
}

#[test]
fn test_diff_navigation_prev_hunk() {
    let mut nav = DiffNavigationState::new();
    nav.prev_hunk(0);
    assert!(nav.selected_hunk_index.is_none());

    nav.prev_hunk(5);
    assert_eq!(nav.selected_hunk_index, Some(4));

    nav.prev_hunk(5);
    assert_eq!(nav.selected_hunk_index, Some(3));

    nav.prev_hunk(5);
    assert_eq!(nav.selected_hunk_index, Some(2));

    nav.prev_hunk(5);
    assert_eq!(nav.selected_hunk_index, Some(1));

    nav.prev_hunk(5);
    assert_eq!(nav.selected_hunk_index, Some(0));

    nav.prev_hunk(5);
    assert_eq!(nav.selected_hunk_index, Some(0));
}

#[test]
fn test_diff_navigation_toggle_details() {
    let mut nav = DiffNavigationState::new();
    assert!(!nav.show_hunk_details);

    nav.toggle_details();
    assert!(nav.show_hunk_details);

    nav.toggle_details();
    assert!(!nav.show_hunk_details);
}

#[test]
fn test_diff_navigation_set_selected_file() {
    let mut nav = DiffNavigationState::new();

    nav.set_selected_file("src/main.rs".to_string());
    assert_eq!(nav.selected_file_path, Some("src/main.rs".to_string()));
    assert!(nav.selected_hunk_index.is_none());
    assert_eq!(nav.hunk_scroll_offset, 0);
}

#[test]
fn test_diff_navigation_scroll_hunk() {
    let mut nav = DiffNavigationState::new();

    nav.scroll_hunk(10);
    assert_eq!(nav.hunk_scroll_offset, 10);

    nav.scroll_hunk(-5);
    assert_eq!(nav.hunk_scroll_offset, 5);

    nav.scroll_hunk(-10);
    assert_eq!(nav.hunk_scroll_offset, 0);

    nav.scroll_hunk(100);
    assert_eq!(nav.hunk_scroll_offset, 100);
}

#[test]
fn test_diff_navigation_patch_change_resets_hunk() {
    let mut nav = DiffNavigationState::new();
    nav.selected_hunk_index = Some(3);
    nav.selected_file_path = Some("test.rs".to_string());
    nav.hunk_scroll_offset = 15;
    nav.next_patch(5);

    assert_eq!(nav.selected_patch_index, Some(0));
    assert!(nav.selected_hunk_index.is_none());
    assert!(nav.selected_file_path.is_none());
    assert_eq!(nav.hunk_scroll_offset, 0);
}
