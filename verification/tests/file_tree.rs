use std::path::Path;
use thndrs_ui::files::tree::{
    build_debug_tree, build_workspace_index, is_git_metadata_path, path_components, workspace_files, FileTree,
    WalkEntry,
};

fn assert_nested(root: &FileTree) {
    let top = &root.nodes[0];
    assert_eq!(top.children.len(), 1);
    let src = &root.nodes[top.children[0]];
    assert_eq!(src.name, "src");
    assert!(src.is_dir);
    let main = &root.nodes[src.children[0]];
    assert_eq!(main.name, "main.rs");
    assert!(!main.is_dir);
}

#[test]
fn files_test_insert_node_creates_nested_nodes() {
    let mut root = FileTree::root("root".to_string());
    root.insert_node("src/main.rs", false);
    assert_nested(&root);
}

#[test]
fn tree_test_insert_node_creates_nested_nodes() {
    let mut root = FileTree::root("root".to_string());
    root.insert_node("src/main.rs", false);
    assert_nested(&root);
}

fn all_rust(files: &[String]) -> bool {
    files.iter().all(|path| Path::new(path).extension().and_then(|ext| ext.to_str()) == Some("rs"))
}

#[test]
fn files_test_collect_files_from_debug_tree() {
    let root = build_debug_tree();
    let files = root.collect_files();
    assert!(!files.is_empty());
    assert!(all_rust(&files));
}

#[test]
fn tree_test_collect_files_from_debug_tree() {
    let root = build_debug_tree();
    let files = root.collect_files();
    assert!(!files.is_empty());
    assert!(all_rust(&files));
}

#[test]
fn debug_tree_has_every_fixture_file_in_path_order() {
    let files = build_debug_tree().collect_files();
    assert_eq!(files.len(), 14 * 6 * 8);
    assert_eq!(files[0], "module_00/feature_00/file_00.rs");
    assert_eq!(files[9], "module_00/feature_01/file_01.rs");
    assert_eq!(files[files.len() - 1], "module_13/feature_05/file_07.rs");
}

#[test]
fn insert_node_reuses_existing_directories() {
    let mut root = FileTree::root("root".to_string());
    root.insert_node("src/main.rs", false);
    root.insert_node("src/lib.rs", false);
    root.insert_node("src", true);
    assert_eq!(root.nodes.len(), 4);
    let src = &root.nodes[root.nodes[0].children[0]];
    assert_eq!(src.children.len(), 2);
    assert_eq!(root.nodes[src.children[1]].path, "src/lib.rs");
}

#[test]
fn sort_recursive_puts_directories_first_then_names_ignoring_case() {
    let mut root = FileTree::root("root".to_string());
    root.insert_node("b.txt", false);
    root.insert_node("Zeta/x.rs", false);
    root.insert_node("A.md", false);
    root.insert_node("alpha/y.rs", false);
    root.sort_recursive();
    let names: Vec<&str> = root.nodes[0].children.iter().map(|&c| root.nodes[c].name.as_str()).collect();
    assert_eq!(names, vec!["alpha", "Zeta", "A.md", "b.txt"]);
}

#[test]
fn path_components_follow_std() {
    let as_strings = |p: &str| -> Vec<String> { path_components(p).iter().map(|c| c.iter().collect()).collect() };
    for p in ["src/main.rs", "a//b/", "./a/./b", "/abs/x", "", ".", "a/../b"] {
        let expected: Vec<String> =
            Path::new(p).components().map(|c| c.as_os_str().to_string_lossy().to_string()).collect();
        assert_eq!(as_strings(p), expected, "components of {p:?}");
    }
}

#[test]
fn git_metadata_is_recognised_by_first_component() {
    assert!(is_git_metadata_path(".git/HEAD"));
    assert!(is_git_metadata_path(".git"));
    assert!(!is_git_metadata_path("src/.git"));
    assert!(!is_git_metadata_path(".github/workflows"));
}

fn walk(entries: &[(&str, bool)]) -> Vec<WalkEntry> {
    entries.iter().map(|(p, d)| WalkEntry { relative_path: p.to_string(), is_dir: *d }).collect()
}

#[test]
fn workspace_files_excludes_git_metadata_and_sorts_by_component() {
    let entries = walk(&[
        (".git", true),
        (".git/HEAD", false),
        ("src", true),
        ("src/main.rs", false),
        ("a-b.rs", false),
        ("a", true),
        ("a/z.rs", false),
    ]);
    let files = workspace_files("ws".to_string(), &entries);
    assert_eq!(files, vec!["a/z.rs", "a-b.rs", "src/main.rs"]);
    let mut std_sorted: Vec<std::path::PathBuf> = files.iter().map(std::path::PathBuf::from).collect();
    std_sorted.sort();
    let std_sorted: Vec<String> = std_sorted.iter().map(|p| p.to_string_lossy().to_string()).collect();
    assert_eq!(files, std_sorted);
}

#[test]
fn workspace_index_builds_tree_of_non_git_entries() {
    let entries = walk(&[("", true), (".git/HEAD", false), ("src", true), ("src/main.rs", false)]);
    let (tree, files) = build_workspace_index("ws".to_string(), &entries);
    assert_eq!(tree.nodes[0].name, "ws");
    assert_eq!(tree.nodes.len(), 3);
    assert_eq!(files, vec!["src/main.rs"]);
}
