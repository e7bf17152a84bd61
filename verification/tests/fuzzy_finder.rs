use thndrs_ui::fuzzy_finder::{rank_files, FileEntry, FuzzyFinder, SortMode};
use thndrs_ui::finder::rank_matches;

fn entry(root: &str, rel: &str, modified: Option<i128>, size: u64) -> FileEntry {
    FileEntry {
        path: format!("{root}/{rel}"),
        relative_path: rel.to_string(),
        modified,
        size,
        is_dir: false,
    }
}

fn dir_entry(root: &str, rel: &str) -> FileEntry {
    FileEntry { path: format!("{root}/{rel}"), relative_path: rel.to_string(), modified: None, size: 0, is_dir: true }
}

/// What a walk of the test workspace yields: `src/main.rs`, `src/lib.rs`,
/// `config.rs`, `tests/test.rs`, and `.hidden` when hidden files are shown.
fn create_test_workspace(show_hidden: bool) -> Vec<FileEntry> {
    let root = "/tmp/ws";
    let mut entries = vec![
        dir_entry(root, "src"),
        entry(root, "src/main.rs", None, 12),
        entry(root, "src/lib.rs", None, 15),
        entry(root, "config.rs", None, 17),
        dir_entry(root, "tests"),
        entry(root, "tests/test.rs", None, 7),
    ];
    if show_hidden {
        entries.push(entry(root, ".hidden", None, 6));
    }
    entries
}

fn discovered(input: &str, cursor: usize) -> FuzzyFinder {
    let mut finder = FuzzyFinder::new("/tmp/ws".to_string(), input.to_string(), cursor);
    finder.load_files(create_test_workspace(finder.show_hidden()));
    finder
}

#[test]
fn test_fuzzy_finder_new() {
    let finder = FuzzyFinder::new("/tmp/ws".to_string(), "test input".to_string(), 5);

    assert_eq!(finder.pattern(), "");
    assert_eq!(finder.original_input(), "test input");
    assert_eq!(finder.original_cursor(), 5);
    assert_eq!(finder.selected_index(), 0);
    assert_eq!(finder.sort_mode(), SortMode::Relevance);
    assert!(!finder.show_hidden());
}

#[test]
fn test_fuzzy_finder_discover_files() {
    let finder = discovered("", 0);

    assert!(!finder.files.is_empty());
    assert_eq!(finder.total_file_count(), finder.files.len());
}

#[test]
fn test_fuzzy_finder_set_pattern_empty() {
    let mut finder = discovered("", 0);

    let total = finder.files.len();
    finder.set_pattern("".to_string());

    assert_eq!(finder.results().len(), total);
}

#[test]
fn test_fuzzy_finder_set_pattern() {
    let mut finder = discovered("", 0);

    finder.set_pattern("main.rs".to_string());

    assert!(!finder.results().is_empty());
    assert!(finder.results().iter().any(|f| f.relative_path.contains("main.rs")));
}

#[test]
fn test_fuzzy_finder_select_up() {
    let mut finder = discovered("", 0);

    if finder.results().len() > 1 {
        finder.select_down();
        assert_eq!(finder.selected_index(), 1);

        finder.select_up();
        assert_eq!(finder.selected_index(), 0);
    }
}

#[test]
fn test_fuzzy_finder_select_down() {
    let mut finder = discovered("", 0);

    if finder.results().len() > 1 {
        finder.select_down();
        assert!(finder.selected_index() <= 1);

        finder.select_down();
        assert!(finder.selected_index() < finder.results().len());
    }
}

#[test]
fn test_fuzzy_finder_select_bounds() {
    let mut finder = discovered("", 0);

    let initial_index = finder.selected_index();
    finder.select_up();
    assert_eq!(finder.selected_index(), initial_index);

    if !finder.results().is_empty() {
        let last_index = finder.results().len() - 1;
        finder.selected_index = last_index;
        finder.select_down();
        assert_eq!(finder.selected_index(), last_index);
    }
}

#[test]
fn test_fuzzy_finder_toggle_sort() {
    let mut finder = FuzzyFinder::new("/tmp/ws".to_string(), String::new(), 0);

    assert_eq!(finder.sort_mode(), SortMode::Relevance);

    finder.toggle_sort();
    assert_eq!(finder.sort_mode(), SortMode::ModifiedTime);

    finder.toggle_sort();
    assert_eq!(finder.sort_mode(), SortMode::Path);

    finder.toggle_sort();
    assert_eq!(finder.sort_mode(), SortMode::Relevance);
}

#[test]
fn test_fuzzy_finder_toggle_hidden() {
    let mut finder = discovered("", 0);
    let count_without_hidden = finder.total_file_count();

    finder.toggle_hidden();
    assert!(finder.show_hidden());

    finder.load_files(create_test_workspace(finder.show_hidden()));
    let count_with_hidden = finder.total_file_count();

    assert!(count_with_hidden >= count_without_hidden);
}

#[test]
fn test_fuzzy_finder_selected() {
    let finder = discovered("", 0);

    if !finder.results().is_empty() {
        let selected = finder.selected();
        assert!(selected.is_some());
        assert_eq!(selected.unwrap().relative_path, finder.results()[0].relative_path);
    }
}

#[test]
fn test_fuzzy_finder_selected_none_when_empty() {
    let finder = FuzzyFinder::new("/nonexistent".to_string(), String::new(), 0);

    let selected = finder.selected();
    assert!(selected.is_none());
}

#[test]
fn test_fuzzy_finder_match_count() {
    let mut finder = discovered("", 0);

    finder.set_pattern("rs".to_string());

    let match_count = finder.match_count();
    assert!(match_count > 0);
    assert!(match_count <= finder.total_file_count());
}

#[test]
fn file_entry_extension_reads_the_suffix() {
    assert_eq!(entry("/w", "test.txt", None, 4).extension(), Some("txt"));
    assert_eq!(entry("/w", "test.rs", None, 0).extension(), Some("rs"));
    assert_eq!(entry("/w", "README.md", None, 0).extension(), Some("md"));
    assert!(entry("/w", "Makefile", None, 0).extension().is_none());
    assert!(entry("/w", ".hidden", None, 0).extension().is_none());
}

#[test]
fn load_files_drops_directories_and_keeps_walk_order() {
    let finder = discovered("", 0);
    let paths: Vec<&str> = finder.files.iter().map(|f| f.relative_path.as_str()).collect();
    assert_eq!(paths, vec!["src/main.rs", "src/lib.rs", "config.rs", "tests/test.rs"]);
}

#[test]
fn path_sort_orders_results_lexicographically() {
    let mut finder = discovered("", 0);
    finder.toggle_sort();
    finder.toggle_sort();
    assert_eq!(finder.sort_mode(), SortMode::Path);
    let paths: Vec<&str> = finder.results().iter().map(|f| f.relative_path.as_str()).collect();
    assert_eq!(paths, vec!["config.rs", "src/lib.rs", "src/main.rs", "tests/test.rs"]);
}

#[test]
fn modified_sort_puts_newest_first_and_untimed_last_by_path() {
    let mut finder = FuzzyFinder::new("/w".to_string(), String::new(), 0);
    finder.load_files(vec![
        entry("/w", "b.rs", None, 1),
        entry("/w", "old.rs", Some(10), 1),
        entry("/w", "a.rs", None, 1),
        entry("/w", "new.rs", Some(30), 1),
        entry("/w", "mid.rs", Some(20), 1),
    ]);
    finder.toggle_sort();
    assert_eq!(finder.sort_mode(), SortMode::ModifiedTime);
    let paths: Vec<&str> = finder.results().iter().map(|f| f.relative_path.as_str()).collect();
    assert_eq!(paths, vec!["new.rs", "mid.rs", "old.rs", "a.rs", "b.rs"]);
}

#[test]
fn non_matching_pattern_empties_results_and_resets_selection() {
    let mut finder = discovered("", 0);
    finder.select_down();
    finder.set_pattern("zzzzqqq".to_string());
    assert_eq!(finder.match_count(), 0);
    assert_eq!(finder.selected_index(), 0);
    assert!(finder.selected().is_none());
}

#[test]
fn set_pattern_clamps_selection_to_last_result() {
    let mut finder = discovered("", 0);
    finder.selected_index = 3;
    finder.set_pattern("main".to_string());
    assert!(finder.match_count() >= 1);
    assert!(finder.selected_index() < finder.match_count());
    assert!(finder.results()[0].relative_path.contains("main"));
}

#[test]
fn sort_mode_toggle_cycles() {
    let mut mode = SortMode::default();
    assert_eq!(mode, SortMode::Relevance);
    mode.toggle();
    mode.toggle();
    mode.toggle();
    assert_eq!(mode, SortMode::Relevance);
}

#[test]
fn rank_files_keeps_positive_scores_best_first() {
    let files = vec![
        entry("/w", "a.rs", None, 1),
        entry("/w", "b.rs", None, 1),
        entry("/w", "c.rs", None, 1),
        entry("/w", "d.rs", None, 1),
    ];
    let scores = vec![Some(5), None, Some(0), Some(9)];
    let ranked = rank_files(&files, &scores);
    let names: Vec<&str> = ranked.iter().map(|e| e.relative_path.as_str()).collect();
    assert_eq!(names, vec!["d.rs", "a.rs"]);
}

#[test]
fn rank_matches_orders_by_score_and_cuts_to_limit() {
    let scores = vec![Some(3), None, Some(7), Some(3), Some(1)];
    assert_eq!(rank_matches(&scores, 10), vec![(2, 7), (0, 3), (3, 3), (4, 1)]);
    assert_eq!(rank_matches(&scores, 2), vec![(2, 7), (0, 3)]);
    assert_eq!(rank_matches(&Vec::new(), 5), Vec::<(usize, u32)>::new());
}
