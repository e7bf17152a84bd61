use thndrs_ui::scroll::ScrollState;

#[test]
fn clamp_keeps_offset_within_bounds() {
    let mut state = ScrollState { offset: 20, page_size: 5, total: 12 };
    state.clamp();
    assert_eq!(state.offset, 7);
}

#[test]
fn page_navigation_uses_page_size() {
    let mut state = ScrollState::with_viewport(100, 10);
    state.page_down();
    assert_eq!(state.offset, 10);
    state.page_up();
    assert_eq!(state.offset, 0);
}

#[test]
fn ensure_visible_scrolls_to_include_index() {
    let mut state = ScrollState::with_viewport(100, 5);
    state.ensure_visible(9);
    assert_eq!(state.offset, 5);
    state.ensure_visible(3);
    assert_eq!(state.offset, 3);
}
