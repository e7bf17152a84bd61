use thndrs_ui::finder::{fuzzy_match_items, FuzzyFinder};
use thndrs_ui::state::evidence::EvidenceState;
use thndrs_ui::state::memory_hits::MemoryHitsState;

/// The fields of a memory search hit the panel shows.
#[derive(Debug, Clone, PartialEq)]
struct SearchHit {
    id: String,
    title: String,
    path: String,
    snippet: String,
}

fn create_test_hit(id: &str, title: &str) -> SearchHit {
    SearchHit {
        id: id.to_string(),
        title: title.to_string(),
        path: format!("semantic/FACTS/{}.md", id),
        snippet: format!("Test snippet for {}", title),
    }
}

#[test]
fn test_memory_hits_state_new() {
    let state: MemoryHitsState<SearchHit> = MemoryHitsState::new();
    assert!(!state.is_visible());
    assert_eq!(state.selected_index, 0);
    assert!(state.hits.is_empty());
}

#[test]
fn test_set_hits() {
    let mut state = MemoryHitsState::new();
    let hits = vec![create_test_hit("test-1", "Test 1"), create_test_hit("test-2", "Test 2")];
    state.set_hits(hits, "test query".to_string(), 15);
    assert!(state.is_visible());
    assert_eq!(state.hits.len(), 2);
    assert_eq!(state.query, "test query");
    assert_eq!(state.search_time_ms, 15);
    assert_eq!(state.selected_index, 0);
}

#[test]
fn test_clear() {
    let mut state = MemoryHitsState::new();
    let hits = vec![create_test_hit("test-1", "Test 1")];
    state.set_hits(hits, "query".to_string(), 10);
    state.pin("test-1".to_string());

    state.clear();
    assert!(!state.is_visible());
    assert!(state.hits.is_empty());
    assert!(state.query.is_empty());
    assert_eq!(state.selected_index, 0);
}

#[test]
fn test_selected_hit() {
    let mut state = MemoryHitsState::new();
    assert!(state.selected_hit().is_none());

    let hits = vec![create_test_hit("test-1", "Test 1")];
    state.set_hits(hits, "query".to_string(), 10);
    assert!(state.selected_hit().is_some());
    assert_eq!(state.selected_hit().unwrap().id, "test-1");
}

#[test]
fn test_select_navigation() {
    let mut state = MemoryHitsState::new();
    let hits = vec![
        create_test_hit("test-1", "Test 1"),
        create_test_hit("test-2", "Test 2"),
        create_test_hit("test-3", "Test 3"),
    ];
    state.set_hits(hits, "query".to_string(), 10);
    assert_eq!(state.selected_index, 0);

    state.select_next();
    assert_eq!(state.selected_index, 1);

    state.select_next();
    assert_eq!(state.selected_index, 2);

    state.select_next();
    assert_eq!(state.selected_index, 0);

    state.select_prev();
    assert_eq!(state.selected_index, 2);
}

#[test]
fn test_pin_unpin() {
    let mut state: MemoryHitsState<SearchHit> = MemoryHitsState::new();
    assert!(!state.is_pinned("test-1"));

    state.pin("test-1".to_string());
    assert!(state.is_pinned("test-1"));
    assert_eq!(state.pinned_count(), 1);

    state.unpin("test-1");
    assert!(!state.is_pinned("test-1"));
    assert_eq!(state.pinned_count(), 0);
}

#[test]
fn test_toggle_pin() {
    let mut state: MemoryHitsState<SearchHit> = MemoryHitsState::new();
    assert!(!state.is_pinned("test-1"));

    state.toggle_pin("test-1");
    assert!(state.is_pinned("test-1"));

    state.toggle_pin("test-1");
    assert!(!state.is_pinned("test-1"));
}

#[test]
fn test_pinned_ids() {
    let mut state: MemoryHitsState<SearchHit> = MemoryHitsState::new();
    state.pin("test-1".to_string());
    state.pin("test-2".to_string());

    assert_eq!(state.pinned_count(), 2);
    assert!(state.pinned_ids().iter().any(|id| id == "test-1"));
    assert!(state.pinned_ids().iter().any(|id| id == "test-2"));
}

#[test]
fn pinning_twice_keeps_one_entry() {
    let mut state: MemoryHitsState<SearchHit> = MemoryHitsState::new();
    state.pin("a".to_string());
    state.pin("a".to_string());
    assert_eq!(state.pinned_count(), 1);
    state.unpin("missing");
    assert_eq!(state.pinned_count(), 1);
}

#[test]
fn test_empty_hits_not_visible() {
    let mut state: MemoryHitsState<SearchHit> = MemoryHitsState::new();
    state.set_hits(vec![], "query".to_string(), 10);
    assert!(!state.is_visible());
}

#[test]
fn evidence_selection_wraps_and_resets_detail_scroll() {
    let mut state = EvidenceState::new();
    state.set_nodes(vec!["a", "b", "c"]);
    state.scroll_down();
    state.scroll_down();
    assert_eq!(state.detail_scroll, 2);
    state.select_prev();
    assert_eq!(state.selected_index, 2);
    assert_eq!(state.detail_scroll, 0);
    state.select_next();
    assert_eq!(state.selected_index, 0);
    assert_eq!(state.selected_node(), Some(&"a"));
    state.scroll_up();
    assert_eq!(state.detail_scroll, 0);
    state.clear();
    assert!(state.selected_node().is_none());
}

fn keys(items: &[String]) -> Vec<String> {
    items.iter().map(|value| value.clone()).collect()
}

#[test]
fn empty_query_returns_prefix_limited_items() {
    let items = vec!["alpha".to_string(), "beta".to_string(), "gamma".to_string()];
    let results = fuzzy_match_items("", &keys(&items), 2);
    assert_eq!(results.len(), 2);
    assert_eq!(results[0].0, 0);
    assert_eq!(results[1].0, 1);
    assert_eq!(results[0].1, u32::MAX);
}

#[test]
fn refresh_orders_by_score_and_clamps_selection() {
    let mut finder = FuzzyFinder::new();
    finder.activate_with_items(vec!["src/main.rs".to_string(), "src/lib.rs".to_string()]);
    finder.selected = 10;
    finder.query = "main".to_string();
    let item_keys = keys(&finder.items);
    finder.refresh(&item_keys, 10);

    assert_eq!(finder.filtered.len(), 1);
    assert_eq!(finder.selected, 0);
    assert_eq!(finder.selected_item().map(String::as_str), Some("src/main.rs"));
}

#[test]
fn matches_are_listed_best_first_and_cut_to_limit() {
    let items = vec!["xmainx".to_string(), "main".to_string(), "other".to_string(), "m_a_i_n".to_string()];
    let results = fuzzy_match_items("main", &keys(&items), 2);
    assert_eq!(results.len(), 2);
    assert!(results[0].1 >= results[1].1);
    assert!(results.iter().all(|(i, _)| *i != 2));
}

#[test]
fn finder_moves_within_matches_and_deactivates() {
    let mut finder: FuzzyFinder<String> = FuzzyFinder::new();
    finder.activate_with_items(vec!["a".to_string(), "b".to_string()]);
    let item_keys = keys(&finder.items);
    finder.refresh(&item_keys, 10);
    assert_eq!(finder.filtered.len(), 2);
    finder.move_down();
    finder.move_down();
    assert_eq!(finder.selected, 1);
    finder.move_up();
    assert_eq!(finder.selected, 0);
    finder.deactivate();
    assert!(!finder.active);
    assert!(finder.filtered.is_empty());
    assert!(finder.selected_item().is_none());
}
