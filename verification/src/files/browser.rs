//! The file browser screen: which directories are open, the rows they show,
//! the selected row, the open file, and the `@` finder over all files.
//! Reading the workspace and files is the app's part (the lines a preview shows
//! come from `files::content`, their colours from `files::highlight`): a key that
//! needs it comes back as a `BrowserEffect`.

use vstd::prelude::*;
use crate::files::tree::{FileTree, NodeView, tree_wf, strings_view, paths_sorted, dfs_files, tree_sorted, components, path_components, build_debug_tree, debug_paths, insert_files};
use crate::text::{join_with, join_prefix};
use crate::finder::{FuzzyFinder, match_items};
use crate::scroll::{ScrollState, visible_offset, min_nat, max_offset_of};
use crate::strs::{str_eq, to_owned, chars_of};
use crate::screen::ScreenAction;

verus! {

/// Most matches the finder lists.
pub const MAX_FINDER_RESULTS: usize = 12;
pub const DEFAULT_TREE_PAGE_SIZE: usize = 10;
pub const DEFAULT_CONTENT_PAGE_SIZE: usize = 20;

/// One visible row of the tree.
#[derive(Debug, Clone)]
pub struct TreeEntry {
    pub name: String,
    pub path: String,
    pub depth: u16,
    pub is_dir: bool,
    pub expanded: bool,
}

/// A row as plain values: name, path, depth, is a directory, is open.
pub type EntryView = (Seq<char>, Seq<char>, u16, bool, bool);

pub open spec fn entry_view(e: TreeEntry) -> EntryView {
    (e.name@, e.path@, e.depth, e.is_dir, e.expanded)
}

pub open spec fn entries_view(es: Seq<TreeEntry>) -> Seq<EntryView> {
    es.map_values(|e: TreeEntry| entry_view(e))
}

/// `depth + 1`, stopping at `u16::MAX`.
pub open spec fn deeper(depth: u16) -> u16 {
    if depth < u16::MAX { (depth + 1) as u16 } else { u16::MAX }
}

/// The rows for the children `cs` of node `n` at `depth`: each child, and
/// below an open directory its own rows one level deeper.
pub open spec fn flatten(t: Seq<NodeView>, n: int, cs: Seq<usize>, depth: u16, open: Set<Seq<char>>) -> Seq<EntryView>
    decreases t.len() - n, cs.len(),
{
    if cs.len() == 0 {
        Seq::empty()
    } else {
        let before = flatten(t, n, cs.drop_last(), depth, open);
        let c = cs.last() as int;
        if c <= n || c >= t.len() {
            before
        } else {
            let expanded = t[c].2 && open.contains(t[c].1);
            let row: EntryView = (t[c].0, t[c].1, depth, t[c].2, expanded);
            if expanded {
                before.push(row) + flatten(t, c, t[c].3, deeper(depth), open)
            } else {
                before.push(row)
            }
        }
    }
}

/// Open sets that agree on every path but `p`.
pub open spec fn differ_only_at(o1: Set<Seq<char>>, o2: Set<Seq<char>>, p: Seq<char>) -> bool {
    forall|q: Seq<char>| q != p ==> (o1.contains(q) <==> o2.contains(q))
}

/// Rows of which none has the path `p` do not change when only `p` opens or closes.
pub proof fn lemma_flatten_without_path(
    t: Seq<NodeView>,
    n: int,
    cs: Seq<usize>,
    depth: u16,
    o1: Set<Seq<char>>,
    o2: Set<Seq<char>>,
    p: Seq<char>,
)
    requires
        differ_only_at(o1, o2, p),
        forall|j: int| 0 <= j < flatten(t, n, cs, depth, o1).len() ==> (#[trigger] flatten(t, n, cs, depth, o1)[j]).1 != p,
    ensures
        flatten(t, n, cs, depth, o2) == flatten(t, n, cs, depth, o1),
    decreases t.len() - n, cs.len(),
{
    if cs.len() > 0 {
        let f1 = flatten(t, n, cs, depth, o1);
        let before = flatten(t, n, cs.drop_last(), depth, o1);
        let c = cs.last() as int;
        if c <= n || c >= t.len() {
            lemma_flatten_without_path(t, n, cs.drop_last(), depth, o1, o2, p);
        } else {
            let expanded = t[c].2 && o1.contains(t[c].1);
            let row: EntryView = (t[c].0, t[c].1, depth, t[c].2, expanded);
            assert forall|j: int| 0 <= j < before.len() implies (#[trigger] before[j]).1 != p by {
                assert(f1[j] == before[j]);
            }
            lemma_flatten_without_path(t, n, cs.drop_last(), depth, o1, o2, p);
            assert(f1[before.len() as int] == row);
            assert(t[c].1 != p);
            if expanded {
                let sub = flatten(t, c, t[c].3, deeper(depth), o1);
                assert forall|j: int| 0 <= j < sub.len() implies (#[trigger] sub[j]).1 != p by {
                    assert(f1[before.len() + 1 + j] == sub[j]);
                }
                lemma_flatten_without_path(t, c, t[c].3, deeper(depth), o1, o2, p);
            }
        }
    }
}

/// Opening or closing the directory of the first row with path `p` keeps
/// every row before it and that row's place, and flips only whether it is open.
pub proof fn lemma_flatten_toggle_row(
    t: Seq<NodeView>,
    n: int,
    cs: Seq<usize>,
    depth: u16,
    o1: Set<Seq<char>>,
    o2: Set<Seq<char>>,
    p: Seq<char>,
    s: int,
)
    requires
        differ_only_at(o1, o2, p),
        0 <= s < flatten(t, n, cs, depth, o1).len(),
        flatten(t, n, cs, depth, o1)[s].1 == p,
        forall|j: int| 0 <= j < s ==> (#[trigger] flatten(t, n, cs, depth, o1)[j]).1 != p,
    ensures
        s < flatten(t, n, cs, depth, o2).len(),
        flatten(t, n, cs, depth, o2).take(s) == flatten(t, n, cs, depth, o1).take(s),
        ({
            let r1 = flatten(t, n, cs, depth, o1)[s];
            &&& r1.4 == (r1.3 && o1.contains(p))
            &&& flatten(t, n, cs, depth, o2)[s] == (r1.0, r1.1, r1.2, r1.3, r1.3 && o2.contains(p))
        }),
    decreases t.len() - n, cs.len(),
{
    let f1 = flatten(t, n, cs, depth, o1);
    let f2 = flatten(t, n, cs, depth, o2);
    let b1 = flatten(t, n, cs.drop_last(), depth, o1);
    let b2 = flatten(t, n, cs.drop_last(), depth, o2);
    let c = cs.last() as int;
    if c <= n || c >= t.len() {
        lemma_flatten_toggle_row(t, n, cs.drop_last(), depth, o1, o2, p, s);
    } else {
        let e1 = t[c].2 && o1.contains(t[c].1);
        let e2 = t[c].2 && o2.contains(t[c].1);
        let row1: EntryView = (t[c].0, t[c].1, depth, t[c].2, e1);
        let row2: EntryView = (t[c].0, t[c].1, depth, t[c].2, e2);
        assert forall|j: int| 0 <= j < b1.len() implies f1[j] == #[trigger] b1[j] by {}
        if s < b1.len() {
            assert forall|j: int| 0 <= j < s implies (#[trigger] b1[j]).1 != p by {
                assert(f1[j] == b1[j]);
            }
            lemma_flatten_toggle_row(t, n, cs.drop_last(), depth, o1, o2, p, s);
            assert(f2.take(s) =~= b2.take(s));
            assert(f1.take(s) =~= b1.take(s));
            assert(f2[s] == b2[s]);
        } else {
            assert forall|j: int| 0 <= j < b1.len() implies (#[trigger] b1[j]).1 != p by {
                assert(f1[j] == b1[j]);
            }
            lemma_flatten_without_path(t, n, cs.drop_last(), depth, o1, o2, p);
            assert(f1[b1.len() as int] == row1);
            if s == b1.len() {
                assert(t[c].1 == p);
                assert(f2[s] == row2);
                assert(f2.take(s) =~= b1);
                assert(f1.take(s) =~= b1);
            } else {
                assert(t[c].1 != p);
                assert(e1 == e2);
                let sub1 = flatten(t, c, t[c].3, deeper(depth), o1);
                let sub2 = flatten(t, c, t[c].3, deeper(depth), o2);
                assert(e1);
                assert(f1 == b1.push(row1) + sub1);
                assert(f2 == b1.push(row1) + sub2);
                let s2 = s - b1.len() - 1;
                assert forall|j: int| 0 <= j < sub1.len() implies #[trigger] sub1[j] == f1[b1.len() + 1 + j] by {}
                assert forall|j: int| 0 <= j < s2 implies (#[trigger] sub1[j]).1 != p by {
                    assert(sub1[j] == f1[b1.len() + 1 + j]);
                }
                assert(sub1[s2] == f1[s]);
                lemma_flatten_toggle_row(t, c, t[c].3, deeper(depth), o1, o2, p, s2);
                assert(f2[s] == sub2[s2]);
                assert(f2.take(s) =~= b1.push(row1) + sub2.take(s2));
                assert(f1.take(s) =~= b1.push(row1) + sub1.take(s2));
            }
        }
    }
}

/// The directory part of a path (`Path::parent` for the normalized
/// relative paths of the tree): what comes before the last `/`, or nothing.
pub open spec fn parent_of(p: Seq<char>) -> Seq<char>
    decreases p.len(),
{
    if p.len() == 0 {
        Seq::empty()
    } else if p.last() == '/' {
        p.drop_last()
    } else {
        parent_of(p.drop_last())
    }
}

/// The directories above a path.
pub open spec fn ancestors(p: Seq<char>) -> Set<Seq<char>>
    decreases p.len(),
{
    let q = parent_of(p);
    if q.len() == 0 || q.len() >= p.len() {
        Set::empty()
    } else {
        ancestors(q).insert(q)
    }
}

pub proof fn lemma_parent_shorter(p: Seq<char>)
    ensures
        parent_of(p).len() <= p.len(),
        p.len() > 0 ==> parent_of(p).len() < p.len(),
        parent_of(p) =~= p.take(parent_of(p).len() as int),
    decreases p.len(),
{
    if p.len() > 0 && p.last() != '/' {
        lemma_parent_shorter(p.drop_last());
    }
}

fn parent_exec(p: &Vec<char>) -> (q: Vec<char>)
    ensures
        q@ == parent_of(p@),
{
    let mut k: usize = p.len();
    assert(p@.take(k as int) =~= p@);
    while k > 0 && p[k - 1] != '/'
        invariant
            k <= p@.len(),
            parent_of(p@) == parent_of(p@.take(k as int)),
        decreases k,
    {
        assert(p@.take(k as int).drop_last() =~= p@.take(k - 1));
        k = k - 1;
    }
    if k == 0 {
        assert(p@.take(0) =~= Seq::<char>::empty());
        return Vec::new();
    }
    assert(p@.take(k as int).drop_last() =~= p@.take(k - 1));
    crate::text::subvec(p, 0, k - 1)
}

/// File paths short enough for the matcher (it panics past `u32::MAX` chars).
pub open spec fn paths_fit(files: Seq<String>) -> bool {
    forall|i: int| 0 <= i < files.len() ==> (#[trigger] files[i])@.len() <= u32::MAX
}

pub open spec fn open_set(v: Seq<String>) -> Set<Seq<char>> {
    strings_view(v).to_set()
}

/// Actions the browser hands back to the screen around it.
#[derive(Debug, Clone, Copy, PartialEq, Eq)]
pub enum FileBrowserAction {
    NoAction,
    Quit,
    ExitToChat,
}

/// Keys of the file browser (the app maps terminal key events to these).
#[derive(Debug, Clone, Copy, PartialEq, Eq)]
pub enum BrowserKey {
    Esc,
    CtrlC,
    CtrlD,
    CtrlQ,
    CtrlR,
    Char(char),
    Backspace,
    Up,
    Down,
    Left,
    Right,
    Enter,
    PageUp,
    PageDown,
    Other,
}

/// Work a key leaves to the app.
#[derive(Debug, Clone)]
pub enum BrowserEffect {
    Nothing,
    /// Walk the workspace again and hand the index to `apply_workspace`.
    Reload,
    /// Read this file and highlight its preview lines, then call `file_opened` (or `open_failed`).
    Open(String),
}

/// State of the file browser.
#[derive(Debug, Clone)]
pub struct FileBrowserApp {
    pub workspace_root: String,
    pub root: FileTree,
    pub files: Vec<String>,
    /// Open directories, each once
    pub expanded_dirs: Vec<String>,
    pub visible_entries: Vec<TreeEntry>,
    pub selected_index: usize,
    pub tree_scroll: ScrollState,
    pub content_scroll: ScrollState,
    pub active_file: Option<String>,
    pub finder: FuzzyFinder<String>,
    pub status_line: String,
}

impl FileBrowserApp {
    pub open spec fn wf(&self) -> bool {
        &&& self.root.wf()
        &&& strings_view(self.expanded_dirs@).no_duplicates()
        &&& self.root.nodes@.len() < usize::MAX
        &&& self.tree_scroll.wf()
        &&& self.content_scroll.wf()
        &&& self.finder.query@.len() <= 65536
    }

    /// The rows the tree shows for the open directories.
    pub open spec fn rows(&self) -> Seq<EntryView> {
        flatten(self.root@, 0, self.root@[0].3, 0, open_set(self.expanded_dirs@))
    }

    /// The row under the cursor.
    pub open spec fn selected_row(&self) -> Option<EntryView> {
        if self.selected_index < self.visible_entries@.len() {
            Some(entry_view(self.visible_entries@[self.selected_index as int]))
        } else {
            None
        }
    }
}

/// Whether `path` is among `v`.
fn contains_str(v: &Vec<String>, path: &str) -> (r: bool)
    ensures
        r == open_set(v@).contains(path@),
{
    let ghost sv = strings_view(v@);
    let mut i: usize = 0;
    while i < v.len()
        invariant
            i <= v@.len(),
            sv == strings_view(v@),
            forall|j: int| 0 <= j < i ==> sv[j] != path@,
        decreases v@.len() - i,
    {
        if str_eq(v[i].as_str(), path) {
            assert(sv[i as int] == path@);
            return true;
        }
        i = i + 1;
    }
    proof {
        if sv.to_set().contains(path@) {
            let j = choose|j: int| 0 <= j < sv.len() && sv[j] == path@;
        }
    }
    false
}

/// Adds `path` to the set `v` (once).
fn insert_str(v: &mut Vec<String>, path: String)
    requires
        strings_view(old(v)@).no_duplicates(),
    ensures
        strings_view(final(v)@).no_duplicates(),
        open_set(final(v)@) == open_set(old(v)@).insert(path@),
{
    if contains_str(v, path.as_str()) {
        assert(open_set(v@).insert(path@) =~= open_set(v@));
        return;
    }
    let ghost sv = strings_view(v@);
    v.push(path);
    proof {
        let w = strings_view(v@);
        assert(w =~= sv.push(path@));
        assert forall|x: Seq<char>| #[trigger] w.to_set().contains(x) <==> sv.to_set().insert(path@).contains(x) by {
            if w.to_set().contains(x) {
                let j = choose|j: int| 0 <= j < w.len() && w[j] == x;
                if j < sv.len() {
                    assert(sv[j] == x);
                }
            }
            if sv.to_set().contains(x) {
                let j = choose|j: int| 0 <= j < sv.len() && sv[j] == x;
                assert(w[j] == x);
            }
            if x == path@ {
                assert(w[sv.len() as int] == x);
            }
        }
        assert(w.to_set() =~= sv.to_set().insert(path@));
        assert forall|i: int, j: int| 0 <= i < j < w.len() implies w[i] != w[j] by {
            if j == sv.len() {
                assert(w[i] == sv[i]);
                assert(sv.contains(sv[i]));
            }
        }
    }
}

/// Removes `path` from the set `v`.
fn remove_str(v: &mut Vec<String>, path: &str)
    requires
        strings_view(old(v)@).no_duplicates(),
    ensures
        strings_view(final(v)@).no_duplicates(),
        open_set(final(v)@) == open_set(old(v)@).remove(path@),
{
    let ghost sv = strings_view(v@);
    let mut i: usize = 0;
    while i < v.len()
        invariant
            i <= v@.len(),
            sv == strings_view(v@),
            sv == strings_view(old(v)@),
            sv.no_duplicates(),
            forall|j: int| 0 <= j < i ==> sv[j] != path@,
        decreases v@.len() - i,
    {
        if str_eq(v[i].as_str(), path) {
            let k = i;
            assert(sv[k as int] == path@);
            v.remove(k);
            proof {
                let w = strings_view(v@);
                assert(w =~= sv.remove(k as int));
                assert forall|x: Seq<char>| #[trigger] w.to_set().contains(x) <==> sv.to_set().remove(path@).contains(x) by {
                    if w.to_set().contains(x) {
                        let j = choose|j: int| 0 <= j < w.len() && w[j] == x;
                        if j < k {
                            assert(sv[j] == x);
                            assert(x != path@);
                        } else {
                            assert(sv[j + 1] == x);
                            assert(x != path@);
                        }
                    }
                    if sv.to_set().remove(path@).contains(x) {
                        let j = choose|j: int| 0 <= j < sv.len() && sv[j] == x;
                        assert(j != k);
                        if j < k {
                            assert(w[j] == x);
                        } else {
                            assert(w[j - 1] == x);
                        }
                    }
                }
                assert(w.to_set() =~= sv.to_set().remove(path@));
                assert forall|a: int, b: int| 0 <= a < b < w.len() implies w[a] != w[b] by {
                    let a2 = if a < k { a } else { a + 1 };
                    let b2 = if b < k { b } else { b + 1 };
                    assert(w[a] == sv[a2] && w[b] == sv[b2]);
                }
            }
            return;
        }
        i = i + 1;
    }
    proof {
        assert forall|x: Seq<char>| sv.to_set().contains(x) implies x != path@ by {
            let j = choose|j: int| 0 <= j < sv.len() && sv[j] == x;
        }
        assert(sv.to_set().remove(path@) =~= sv.to_set());
    }
}

/// Appends the rows for the children of node `n` at `depth`.
fn flatten_tree_entries(tree: &FileTree, n: usize, depth: u16, open: &Vec<String>, out: &mut Vec<TreeEntry>)
    requires
        tree.wf(),
        n < tree.nodes@.len(),
    ensures
        entries_view(final(out)@) == entries_view(old(out)@) + flatten(tree@, n as int, tree@[n as int].3, depth, open_set(open@)),
    decreases tree.nodes@.len() - n,
{
    let ghost t = tree@;
    let ghost start = entries_view(out@);
    let ghost op = open_set(open@);
    let cs = &tree.nodes[n].children;
    let mut i: usize = 0;
    assert(cs@.take(0) =~= Seq::<usize>::empty());
    assert(entries_view(out@) =~= start + flatten(t, n as int, cs@.take(0), depth, op));
    while i < cs.len()
        invariant
            t == tree@,
            tree_wf(t),
            n < t.len(),
            op == open_set(open@),
            cs@ == t[n as int].3,
            i <= cs@.len(),
            entries_view(out@) == start + flatten(t, n as int, cs@.take(i as int), depth, op),
        decreases cs@.len() - i,
    {
        let c = cs[i];
        assert(n < c && c < t.len());
        assert(cs@.take(i + 1).drop_last() =~= cs@.take(i as int));
        assert(cs@.take(i + 1).last() == c);
        let node = &tree.nodes[c];
        let expanded = node.is_dir && contains_str(open, node.path.as_str());
        let ghost before = entries_view(out@);
        let ghost a = flatten(t, n as int, cs@.take(i as int), depth, op);
        out.push(TreeEntry { name: node.name.clone(), path: node.path.clone(), depth, is_dir: node.is_dir, expanded });
        let ghost row: EntryView = (t[c as int].0, t[c as int].1, depth, t[c as int].2, expanded);
        assert(entries_view(out@) =~= before.push(row));
        if expanded {
            let next = if depth < u16::MAX { depth + 1 } else { u16::MAX };
            let ghost mid = entries_view(out@);
            flatten_tree_entries(tree, c, next, open, out);
            let ghost b = flatten(t, c as int, t[c as int].3, deeper(depth), op);
            assert(entries_view(out@) == mid + b);
            assert(flatten(t, n as int, cs@.take(i + 1), depth, op) == a.push(row) + b);
            assert((start + a).push(row) + b =~= start + (a.push(row) + b));
        } else {
            assert(flatten(t, n as int, cs@.take(i + 1), depth, op) == a.push(row));
            assert((start + a).push(row) =~= start + a.push(row));
        }
        i = i + 1;
    }
    assert(cs@.take(cs@.len() as int) =~= cs@);
}

/// A row of the tree as drawn.
#[derive(Debug, Clone, PartialEq, Eq)]
pub struct FileTreeRow {
    pub name: String,
    pub depth: u16,
    pub is_dir: bool,
    pub expanded: bool,
    pub selected: bool,
    pub active: bool,
}

/// Selection after the rows change to `len` rows: kept, or moved to the last row.
pub open spec fn clamped(sel: nat, len: nat) -> nat {
    if len == 0 { 0 } else if sel < len { sel } else { (len - 1) as nat }
}

/// Tree scroll offset once the tree has `total` rows and row `sel` is shown.
pub open spec fn tree_offset(offset: nat, page: nat, total: nat, sel: nat) -> nat {
    visible_offset(min_nat(offset, max_offset_of(total, page)), page, total, sel)
}

/// Everything but the rows, the selection and the tree scroll is as in `b`.
pub open spec fn same_but_rows(a: FileBrowserApp, b: FileBrowserApp) -> bool {
    &&& a.workspace_root == b.workspace_root
    &&& a.root == b.root
    &&& a.files == b.files
    &&& a.expanded_dirs == b.expanded_dirs
    &&& a.content_scroll == b.content_scroll
    &&& a.active_file == b.active_file
    &&& a.finder == b.finder
    &&& a.status_line == b.status_line
    &&& a.tree_scroll.page_size == b.tree_scroll.page_size
}

/// `new` shows the rows of its open directories, with the selection and the
/// tree scroll carried over from `old`.
pub open spec fn rebuilt(old: FileBrowserApp, new: FileBrowserApp) -> bool {
    let len = new.rows().len();
    &&& entries_view(new.visible_entries@) == new.rows()
    &&& new.selected_index == clamped(old.selected_index as nat, len)
    &&& new.tree_scroll.total == len
    &&& new.tree_scroll.offset == tree_offset(old.tree_scroll.offset as nat, old.tree_scroll.page_size as nat, len, new.selected_index as nat)
}

impl FileBrowserApp {
    /// A browser for the workspace at `workspace_root` (called `root_name`),
    /// with nothing loaded yet.
    pub fn new(workspace_root: String, root_name: String) -> (app: Self)
        ensures
            app.wf(),
            app.workspace_root == workspace_root,
            app.root@ == seq![(root_name@, Seq::<char>::empty(), true, Seq::<usize>::empty())],
            app.files@.len() == 0,
            app.expanded_dirs@.len() == 0,
            app.visible_entries@.len() == 0,
            app.selected_index == 0,
            app.tree_scroll.page_size == DEFAULT_TREE_PAGE_SIZE,
            app.content_scroll.page_size == DEFAULT_CONTENT_PAGE_SIZE,
            app.active_file is None,
            !app.finder.active,
            app.status_line@ == "Press @ to fuzzy-find files, Enter to open, Esc to return to chat."@,
    {
        let app = FileBrowserApp {
            workspace_root,
            root: FileTree::root(root_name),
            files: Vec::new(),
            expanded_dirs: Vec::new(),
            visible_entries: Vec::new(),
            selected_index: 0,
            tree_scroll: ScrollState::with_viewport(0, DEFAULT_TREE_PAGE_SIZE),
            content_scroll: ScrollState::with_viewport(0, DEFAULT_CONTENT_PAGE_SIZE),
            active_file: None,
            finder: FuzzyFinder::new(),
            status_line: to_owned("Press @ to fuzzy-find files, Enter to open, Esc to return to chat."),
        };
        assert(strings_view(app.expanded_dirs@) =~= Seq::<Seq<char>>::empty());
        app
    }

    fn rebuild_visible_entries(&mut self)
        requires
            old(self).wf(),
        ensures
            final(self).wf(),
            same_but_rows(*final(self), *old(self)),
            rebuilt(*old(self), *final(self)),
    {
        let mut entries: Vec<TreeEntry> = Vec::new();
        flatten_tree_entries(&self.root, 0, 0, &self.expanded_dirs, &mut entries);
        assert(entries_view(entries@) =~= self.rows());
        self.visible_entries = entries;
        let n = self.visible_entries.len();
        let last = if n > 0 { n - 1 } else { 0 };
        if self.selected_index > last {
            self.selected_index = last;
        }
        self.tree_scroll.set_total(n);
        self.tree_scroll.ensure_visible(self.selected_index);
    }

    fn move_selection_up(&mut self)
        ensures
            final(self).selected_index == if old(self).selected_index > 0 { old(self).selected_index - 1 } else { 0 },
            final(self).tree_scroll.offset == visible_offset(old(self).tree_scroll.offset as nat,
                old(self).tree_scroll.page_size as nat, old(self).tree_scroll.total as nat, final(self).selected_index as nat),
            final(self).tree_scroll.total == old(self).tree_scroll.total,
            final(self).tree_scroll.page_size == old(self).tree_scroll.page_size,
            final(self).tree_scroll.wf(),
            final(self).visible_entries == old(self).visible_entries,
            same_but_rows(*final(self), *old(self)),
    {
        if self.selected_index > 0 {
            self.selected_index = self.selected_index - 1;
        }
        self.tree_scroll.ensure_visible(self.selected_index);
    }

    fn move_selection_down(&mut self)
        ensures
            final(self).selected_index == if old(self).selected_index + 1 < old(self).visible_entries@.len() {
                old(self).selected_index + 1
            } else {
                old(self).selected_index as int
            },
            final(self).tree_scroll.offset == visible_offset(old(self).tree_scroll.offset as nat,
                old(self).tree_scroll.page_size as nat, old(self).tree_scroll.total as nat, final(self).selected_index as nat),
            final(self).tree_scroll.total == old(self).tree_scroll.total,
            final(self).tree_scroll.page_size == old(self).tree_scroll.page_size,
            final(self).tree_scroll.wf(),
            final(self).visible_entries == old(self).visible_entries,
            same_but_rows(*final(self), *old(self)),
    {
        if self.selected_index < self.visible_entries.len() && self.selected_index + 1 < self.visible_entries.len() {
            self.selected_index = self.selected_index + 1;
        }
        self.tree_scroll.ensure_visible(self.selected_index);
    }

    /// Moves the selection to the first row showing `path`, if one does.
    fn select_entry_by_path(&mut self, path: &str)
        ensures
            match first_row_with(entries_view(old(self).visible_entries@), path@) {
                Some(i) => final(self).selected_index == i && final(self).tree_scroll.offset == visible_offset(
                    old(self).tree_scroll.offset as nat, old(self).tree_scroll.page_size as nat,
                    old(self).tree_scroll.total as nat, i as nat),
                None => final(self).selected_index == old(self).selected_index && final(self).tree_scroll == old(self).tree_scroll,
            },
            final(self).tree_scroll.total == old(self).tree_scroll.total,
            old(self).tree_scroll.wf() ==> final(self).tree_scroll.wf(),
            final(self).visible_entries == old(self).visible_entries,
            same_but_rows(*final(self), *old(self)),
    {
        let ghost ev = entries_view(self.visible_entries@);
        let mut i: usize = 0;
        while i < self.visible_entries.len()
            invariant
                *self == *old(self),
                i <= self.visible_entries@.len(),
                ev == entries_view(self.visible_entries@),
                forall|j: int| 0 <= j < i ==> ev[j].1 != path@,
            decreases self.visible_entries@.len() - i,
        {
            if str_eq(self.visible_entries[i].path.as_str(), path) {
                proof { lemma_first_row_at(ev, path@, i as int); }
                self.selected_index = i;
                self.tree_scroll.ensure_visible(i);
                return;
            }
            i = i + 1;
        }
        proof { lemma_first_row_none(ev, path@); }
    }
}

/// The first row whose path is `p`.
pub open spec fn first_row_with(rows: Seq<EntryView>, p: Seq<char>) -> Option<int>
    decreases rows.len(),
{
    if rows.len() == 0 {
        None
    } else if rows[0].1 == p {
        Some(0)
    } else {
        match first_row_with(rows.drop_first(), p) {
            Some(i) => Some(i + 1),
            None => None,
        }
    }
}

proof fn lemma_first_row_at(rows: Seq<EntryView>, p: Seq<char>, i: int)
    requires
        0 <= i < rows.len(),
        rows[i].1 == p,
        forall|j: int| 0 <= j < i ==> rows[j].1 != p,
    ensures
        first_row_with(rows, p) == Some(i),
    decreases i,
{
    if i > 0 {
        assert forall|j: int| 0 <= j < i - 1 implies rows.drop_first()[j].1 != p by {
            assert(rows.drop_first()[j] == rows[j + 1]);
        }
        lemma_first_row_at(rows.drop_first(), p, i - 1);
    }
}

proof fn lemma_first_row_none(rows: Seq<EntryView>, p: Seq<char>)
    requires
        forall|j: int| 0 <= j < rows.len() ==> rows[j].1 != p,
    ensures
        first_row_with(rows, p) is None,
    decreases rows.len(),
{
    if rows.len() > 0 {
        assert forall|j: int| 0 <= j < rows.drop_first().len() implies rows.drop_first()[j].1 != p by {
            assert(rows.drop_first()[j] == rows[j + 1]);
        }
        lemma_first_row_none(rows.drop_first(), p);
    }
}

/// The directories above `p`, and `p` itself when it is not empty.
pub open spec fn with_ancestors(p: Seq<char>) -> Set<Seq<char>> {
    if p.len() == 0 { Set::empty() } else { ancestors(p).insert(p) }
}

/// The selection and scroll after `select_entry_by_path(p)` on `a`.
pub open spec fn selected_path(a: FileBrowserApp, p: Seq<char>, b: FileBrowserApp) -> bool {
    &&& same_but_rows(b, a)
    &&& b.visible_entries == a.visible_entries
    &&& b.tree_scroll.total == a.tree_scroll.total
    &&& match first_row_with(entries_view(a.visible_entries@), p) {
        Some(i) => b.selected_index == i && b.tree_scroll.offset == visible_offset(a.tree_scroll.offset as nat,
            a.tree_scroll.page_size as nat, a.tree_scroll.total as nat, i as nat),
        None => b.selected_index == a.selected_index && b.tree_scroll == a.tree_scroll,
    }
}

/// Left: an open directory closes; otherwise the row's directory closes and
/// gets selected.
pub open spec fn collapsed(old: FileBrowserApp, new: FileBrowserApp) -> bool {
    match old.selected_row() {
        None => new == old,
        Some(row) => if row.3 && row.4 {
            &&& open_set(new.expanded_dirs@) == open_set(old.expanded_dirs@).remove(row.1)
            &&& rebuilt(old, new)
        } else if parent_of(row.1).len() == 0 {
            new == old
        } else {
            exists|mid: FileBrowserApp| {
                &&& #[trigger] open_set(mid.expanded_dirs@) == open_set(old.expanded_dirs@).remove(parent_of(row.1))
                &&& rebuilt(old, mid)
                &&& mid.root == old.root
                &&& selected_path(mid, parent_of(row.1), new)
            }
        },
    }
}

/// Right/Enter: a directory opens or closes; a file is to be opened.
pub open spec fn expanded_or_opened(old: FileBrowserApp, new: FileBrowserApp, effect: BrowserEffect) -> bool {
    match old.selected_row() {
        None => new == old && effect is Nothing,
        Some(row) => if row.3 {
            &&& open_set(new.expanded_dirs@) == if row.4 {
                open_set(old.expanded_dirs@).remove(row.1)
            } else {
                open_set(old.expanded_dirs@).insert(row.1)
            }
            &&& rebuilt(old, new)
            &&& effect is Nothing
        } else {
            &&& new == old
            &&& (effect matches BrowserEffect::Open(p) && p@ == row.1)
        },
    }
}

impl FileBrowserApp {
    /// Opens every directory above `path`.
    fn expand_parents_for(&mut self, path: &str)
        requires
            old(self).wf(),
        ensures
            final(self).wf(),
            open_set(final(self).expanded_dirs@) == open_set(old(self).expanded_dirs@).union(ancestors(path@)),
            final(self).root == old(self).root,
            final(self).files == old(self).files,
            final(self).visible_entries == old(self).visible_entries,
            final(self).selected_index == old(self).selected_index,
            final(self).tree_scroll == old(self).tree_scroll,
            final(self).content_scroll == old(self).content_scroll,
            final(self).active_file == old(self).active_file,
            final(self).finder == old(self).finder,
            final(self).status_line == old(self).status_line,
            final(self).workspace_root == old(self).workspace_root,
    {
        let chars = chars_of(path);
        let mut cursor = parent_exec(&chars);
        proof { lemma_parent_shorter(path@); }
        let ghost target = open_set(old(self).expanded_dirs@).union(ancestors(path@));
        assert(ancestors(path@) =~= with_ancestors(parent_of(path@))) by {
            if path@.len() == 0 {
                assert(parent_of(path@) =~= Seq::<char>::empty());
            }
        }
        while cursor.len() > 0
            invariant
                self.wf(),
                open_set(self.expanded_dirs@).union(with_ancestors(cursor@)) == target,
                open_set(old(self).expanded_dirs@).subset_of(open_set(self.expanded_dirs@)),
                target == open_set(old(self).expanded_dirs@).union(ancestors(path@)),
                self.root == old(self).root,
                self.files == old(self).files,
                self.visible_entries == old(self).visible_entries,
                self.selected_index == old(self).selected_index,
                self.tree_scroll == old(self).tree_scroll,
                self.content_scroll == old(self).content_scroll,
                self.active_file == old(self).active_file,
                self.finder == old(self).finder,
                self.status_line == old(self).status_line,
                self.workspace_root == old(self).workspace_root,
            decreases cursor@.len(),
        {
            let dir = crate::strs::string_from_chars(cursor.as_slice());
            insert_str(&mut self.expanded_dirs, dir);
            let next = parent_exec(&cursor);
            proof {
                lemma_parent_shorter(cursor@);
                assert(ancestors(cursor@) =~= with_ancestors(next@));
                assert(open_set(self.expanded_dirs@).union(with_ancestors(next@)) =~= target);
            }
            cursor = next;
        }
        assert(with_ancestors(cursor@) =~= Set::<Seq<char>>::empty());
        assert(open_set(self.expanded_dirs@) =~= target);
    }

    fn collapse_selected_or_parent(&mut self)
        requires
            old(self).wf(),
        ensures
            final(self).wf(),
            collapsed(*old(self), *final(self)),
            final(self).root == old(self).root,
            final(self).files == old(self).files,
            final(self).content_scroll == old(self).content_scroll,
            final(self).active_file == old(self).active_file,
            final(self).finder == old(self).finder,
            final(self).status_line == old(self).status_line,
            final(self).workspace_root == old(self).workspace_root,
    {
        if self.selected_index >= self.visible_entries.len() {
            return;
        }
        let entry = &self.visible_entries[self.selected_index];
        let is_dir = entry.is_dir;
        let expanded = entry.expanded;
        let path = entry.path.clone();
        if is_dir && expanded {
            remove_str(&mut self.expanded_dirs, path.as_str());
            self.rebuild_visible_entries();
            return;
        }
        let parent = parent_exec(&chars_of(path.as_str()));
        if parent.len() > 0 {
            let parent_path = crate::strs::string_from_chars(parent.as_slice());
            remove_str(&mut self.expanded_dirs, parent_path.as_str());
            self.rebuild_visible_entries();
            let ghost mid = *self;
            self.select_entry_by_path(parent_path.as_str());
            assert(selected_path(mid, parent_of(path@), *self));
        }
    }

    fn expand_or_open_selected(&mut self) -> (effect: BrowserEffect)
        requires
            old(self).wf(),
        ensures
            final(self).wf(),
            expanded_or_opened(*old(self), *final(self), effect),
            final(self).root == old(self).root,
            final(self).files == old(self).files,
            final(self).content_scroll == old(self).content_scroll,
            final(self).active_file == old(self).active_file,
            final(self).finder == old(self).finder,
            final(self).status_line == old(self).status_line,
            final(self).workspace_root == old(self).workspace_root,
    {
        if self.selected_index >= self.visible_entries.len() {
            return BrowserEffect::Nothing;
        }
        let entry = &self.visible_entries[self.selected_index];
        let is_dir = entry.is_dir;
        let expanded = entry.expanded;
        let path = entry.path.clone();
        if is_dir {
            if expanded {
                remove_str(&mut self.expanded_dirs, path.as_str());
            } else {
                insert_str(&mut self.expanded_dirs, path);
            }
            self.rebuild_visible_entries();
            return BrowserEffect::Nothing;
        }
        BrowserEffect::Open(path)
    }

    /// Re-matches the finder's query against every file path.
    fn update_fuzzy_matches(&mut self)
        requires
            old(self).finder.query@.len() <= 65536,
            paths_fit(old(self).files@),
        ensures
            match_items(old(self).finder.query@, strings_view(old(self).files@), MAX_FINDER_RESULTS as nat, final(self).finder.filtered@),
            final(self).finder.selected == if final(self).finder.filtered@.len() == 0 {
                0
            } else if old(self).finder.selected < final(self).finder.filtered@.len() {
                old(self).finder.selected as int
            } else {
                final(self).finder.filtered@.len() - 1
            },
            final(self).finder.items == old(self).finder.items,
            final(self).finder.query == old(self).finder.query,
            final(self).finder.active == old(self).finder.active,
            final(self).root == old(self).root,
            final(self).files == old(self).files,
            final(self).expanded_dirs == old(self).expanded_dirs,
            final(self).visible_entries == old(self).visible_entries,
            final(self).selected_index == old(self).selected_index,
            final(self).tree_scroll == old(self).tree_scroll,
            final(self).content_scroll == old(self).content_scroll,
            final(self).active_file == old(self).active_file,
            final(self).status_line == old(self).status_line,
            final(self).workspace_root == old(self).workspace_root,
    {
        assert(strings_view(self.files@) =~= self.files@.map_values(|s: String| s@));
        self.finder.refresh(&self.files, MAX_FINDER_RESULTS);
    }
}

/// The item the finder has selected, if any.
pub open spec fn finder_choice(f: FuzzyFinder<String>) -> Option<String> {
    if f.selected < f.filtered@.len() && f.filtered@[f.selected as int].0 < f.items@.len() {
        Some(f.items@[f.filtered@[f.selected as int].0 as int])
    } else {
        None
    }
}

/// The finder closed: no query, no matches, nothing selected.
pub open spec fn finder_closed(old: FuzzyFinder<String>, new: FuzzyFinder<String>) -> bool {
    &&& !new.active
    &&& new.query@.len() == 0
    &&& new.filtered@.len() == 0
    &&& new.selected == 0
    &&& new.items == old.items
}

/// The finder after its query changed to `q`: matches recomputed over the files.
pub open spec fn finder_requeried(old: FuzzyFinder<String>, q: Seq<char>, files: Seq<String>, new: FuzzyFinder<String>) -> bool {
    &&& new.query@ == q
    &&& match_items(q, strings_view(files), MAX_FINDER_RESULTS as nat, new.filtered@)
    &&& new.selected == if new.filtered@.len() == 0 {
        0
    } else if old.selected < new.filtered@.len() {
        old.selected as int
    } else {
        new.filtered@.len() - 1
    }
    &&& new.items == old.items
    &&& new.active == old.active
}

/// A key while the finder is open.
pub open spec fn finder_key_result(old: FileBrowserApp, key: BrowserKey, new: FileBrowserApp, r: (FileBrowserAction, BrowserEffect)) -> bool {
    match key {
        BrowserKey::Esc => finder_closed(old.finder, new.finder) && r.0 == FileBrowserAction::NoAction && r.1 is Nothing
            && new == (FileBrowserApp { finder: new.finder, ..old }),
        BrowserKey::CtrlC => finder_closed(old.finder, new.finder) && r.0 == FileBrowserAction::Quit && r.1 is Nothing
            && new == (FileBrowserApp { finder: new.finder, ..old }),
        BrowserKey::Char(c) => finder_requeried(old.finder, old.finder.query@.push(c), old.files@, new.finder)
            && r.0 == FileBrowserAction::NoAction && r.1 is Nothing
            && new == (FileBrowserApp { finder: new.finder, ..old }),
        BrowserKey::Backspace => finder_requeried(old.finder,
            if old.finder.query@.len() > 0 { old.finder.query@.drop_last() } else { old.finder.query@ }, old.files@, new.finder)
            && r.0 == FileBrowserAction::NoAction && r.1 is Nothing
            && new == (FileBrowserApp { finder: new.finder, ..old }),
        BrowserKey::Up => new.finder.selected == (if old.finder.selected > 0 { old.finder.selected - 1 } else { 0 })
            && new.finder.filtered == old.finder.filtered && r.0 == FileBrowserAction::NoAction && r.1 is Nothing,
        BrowserKey::Down => new.finder.selected == (if old.finder.selected + 1 < old.finder.filtered@.len() {
                old.finder.selected + 1
            } else {
                old.finder.selected as int
            }) && new.finder.filtered == old.finder.filtered && r.0 == FileBrowserAction::NoAction && r.1 is Nothing,
        BrowserKey::Enter => {
            &&& finder_closed(old.finder, new.finder)
            &&& r.0 == FileBrowserAction::NoAction
            &&& match finder_choice(old.finder) {
                Some(p) => {
                    &&& (r.1 matches BrowserEffect::Open(q) && q@ == p@)
                    &&& open_set(new.expanded_dirs@) == open_set(old.expanded_dirs@).union(ancestors(p@))
                    &&& exists|mid: FileBrowserApp| #[trigger] selected_path(old, p@, mid) && rebuilt(mid, new)
                },
                None => r.1 is Nothing && new.expanded_dirs == old.expanded_dirs && new.selected_index == old.selected_index
                    && new.visible_entries == old.visible_entries,
            }
        },
        _ => new == old && r.0 == FileBrowserAction::NoAction && r.1 is Nothing,
    }
}

/// `s` with `c` pushed at the end.
fn string_push(s: &String, c: char) -> (r: String)
    ensures
        r@ == s@.push(c),
{
    let mut v = chars_of(s.as_str());
    v.push(c);
    crate::strs::string_from_chars(v.as_slice())
}

/// `s` without its last char (`String::pop`).
fn string_pop(s: &String) -> (r: String)
    ensures
        r@ == if s@.len() > 0 { s@.drop_last() } else { s@ },
{
    let v = chars_of(s.as_str());
    if v.len() == 0 {
        return s.clone();
    }
    let w = crate::text::subvec(&v, 0, v.len() - 1);
    assert(w@ =~= s@.drop_last());
    crate::strs::string_from_chars(w.as_slice())
}

impl FileBrowserApp {
    fn handle_fuzzy_finder_input(&mut self, key: BrowserKey) -> (r: (FileBrowserAction, BrowserEffect))
        requires
            old(self).wf(),
            old(self).finder.query@.len() < 65536,
            paths_fit(old(self).files@),
        ensures
            final(self).wf(),
            finder_key_result(*old(self), key, *final(self), r),
            final(self).root == old(self).root,
            final(self).files == old(self).files,
            final(self).content_scroll == old(self).content_scroll,
            final(self).active_file == old(self).active_file,
            final(self).status_line == old(self).status_line,
    {
        match key {
            BrowserKey::Esc => {
                self.finder.deactivate();
            },
            BrowserKey::CtrlC => {
                self.finder.deactivate();
                return (FileBrowserAction::Quit, BrowserEffect::Nothing);
            },
            BrowserKey::Char(ch) => {
                self.finder.query = string_push(&self.finder.query, ch);
                self.update_fuzzy_matches();
            },
            BrowserKey::Backspace => {
                self.finder.query = string_pop(&self.finder.query);
                self.update_fuzzy_matches();
            },
            BrowserKey::Up => {
                self.finder.move_up();
            },
            BrowserKey::Down => {
                self.finder.move_down();
            },
            BrowserKey::Enter => {
                let mut effect = BrowserEffect::Nothing;
                let ghost start = *self;
                match self.finder.selected_item() {
                    Some(p) => {
                        let path = p.clone();
                        assert(finder_choice(start.finder) == Some(path));
                        effect = BrowserEffect::Open(path.clone());
                        self.select_entry_by_path(path.as_str());
                        let ghost mid = *self;
                        self.expand_parents_for(path.as_str());
                        self.rebuild_visible_entries();
                        self.finder.deactivate();
                        assert(selected_path(start, path@, mid));
                        assert(rebuilt(mid, *self));
                        assert(open_set(self.expanded_dirs@) == open_set(start.expanded_dirs@).union(ancestors(path@)));
                        return (FileBrowserAction::NoAction, effect);
                    },
                    None => {
                        assert(finder_choice(start.finder) is None);
                    },
                }
                self.finder.deactivate();
                return (FileBrowserAction::NoAction, effect);
            },
            _ => {},
        }
        (FileBrowserAction::NoAction, BrowserEffect::Nothing)
    }
}

/// A key while the finder is closed.
pub open spec fn browse_key_result(old: FileBrowserApp, key: BrowserKey, new: FileBrowserApp, r: (FileBrowserAction, BrowserEffect)) -> bool {
    match key {
        BrowserKey::Esc => new == old && r.0 == FileBrowserAction::ExitToChat && r.1 is Nothing,
        BrowserKey::CtrlC | BrowserKey::CtrlD | BrowserKey::CtrlQ => new == old && r.0 == FileBrowserAction::Quit && r.1 is Nothing,
        BrowserKey::Char(c) => if c == '@' {
            &&& new.finder.active
            &&& new.finder.items@ == old.files@
            &&& new.finder.query@.len() == 0
            &&& match_items(Seq::empty(), strings_view(old.files@), MAX_FINDER_RESULTS as nat, new.finder.filtered@)
            &&& new.finder.selected == 0
            &&& new == (FileBrowserApp { finder: new.finder, ..old })
            &&& r.0 == FileBrowserAction::NoAction && r.1 is Nothing
        } else {
            new == old && r.0 == FileBrowserAction::NoAction && r.1 is Nothing
        },
        BrowserKey::CtrlR => new == old && r.0 == FileBrowserAction::NoAction && r.1 is Reload,
        BrowserKey::Up => {
            &&& new.selected_index == if old.selected_index > 0 { old.selected_index - 1 } else { 0 }
            &&& new.tree_scroll.offset == visible_offset(old.tree_scroll.offset as nat, old.tree_scroll.page_size as nat,
                old.tree_scroll.total as nat, new.selected_index as nat)
            &&& new.visible_entries == old.visible_entries
            &&& r.0 == FileBrowserAction::NoAction && r.1 is Nothing
        },
        BrowserKey::Down => {
            &&& new.selected_index == if old.selected_index + 1 < old.visible_entries@.len() {
                old.selected_index + 1
            } else {
                old.selected_index as int
            }
            &&& new.tree_scroll.offset == visible_offset(old.tree_scroll.offset as nat, old.tree_scroll.page_size as nat,
                old.tree_scroll.total as nat, new.selected_index as nat)
            &&& new.visible_entries == old.visible_entries
            &&& r.0 == FileBrowserAction::NoAction && r.1 is Nothing
        },
        BrowserKey::Left => collapsed(old, new) && r.0 == FileBrowserAction::NoAction && r.1 is Nothing,
        BrowserKey::Right | BrowserKey::Enter => expanded_or_opened(old, new, r.1) && r.0 == FileBrowserAction::NoAction,
        BrowserKey::PageUp => {
            &&& new.content_scroll.offset == crate::scroll::sat_sub(old.content_scroll.offset as nat,
                if old.content_scroll.page_size == 0 { 1 } else { old.content_scroll.page_size as nat })
            &&& new.content_scroll.total == old.content_scroll.total
            &&& new.selected_index == old.selected_index
            &&& r.0 == FileBrowserAction::NoAction && r.1 is Nothing
        },
        BrowserKey::PageDown => {
            &&& new.content_scroll.offset == min_nat(crate::scroll::sat_add_usize(old.content_scroll.offset as nat,
                if old.content_scroll.page_size == 0 { 1 } else { old.content_scroll.page_size as nat }), old.content_scroll.max_off())
            &&& new.content_scroll.total == old.content_scroll.total
            &&& new.selected_index == old.selected_index
            &&& r.0 == FileBrowserAction::NoAction && r.1 is Nothing
        },
        _ => new == old && r.0 == FileBrowserAction::NoAction && r.1 is Nothing,
    }
}

/// What one key does to the browser (`handle_input`): the open finder takes
/// it first; the tree, the files, the open file and the status stay.
pub open spec fn browser_step(o: FileBrowserApp, key: BrowserKey, n: FileBrowserApp, r: (FileBrowserAction, BrowserEffect)) -> bool {
    &&& n.wf()
    &&& n.root == o.root
    &&& n.files == o.files
    &&& n.active_file == o.active_file
    &&& n.status_line == o.status_line
    &&& if o.finder.active {
        finder_key_result(o, key, n, r)
    } else {
        browse_key_result(o, key, n, r)
    }
}

impl FileBrowserApp {
    /// Handles one key: the open finder takes it first.
    pub fn handle_input(&mut self, key: BrowserKey) -> (r: (FileBrowserAction, BrowserEffect))
        requires
            old(self).wf(),
            old(self).finder.query@.len() < 65536,
            paths_fit(old(self).files@),
        ensures
            browser_step(*old(self), key, *final(self), r),
    {
        if self.finder.active {
            return self.handle_fuzzy_finder_input(key);
        }
        match key {
            BrowserKey::Esc => (FileBrowserAction::ExitToChat, BrowserEffect::Nothing),
            BrowserKey::CtrlC | BrowserKey::CtrlD | BrowserKey::CtrlQ => (FileBrowserAction::Quit, BrowserEffect::Nothing),
            BrowserKey::Char(c) => {
                if c == '@' {
                    let items = clone_strings(&self.files);
                    self.finder.activate_with_items(items);
                    self.update_fuzzy_matches();
                    assert(self.finder.query@ =~= Seq::<char>::empty());
                }
                (FileBrowserAction::NoAction, BrowserEffect::Nothing)
            },
            BrowserKey::CtrlR => (FileBrowserAction::NoAction, BrowserEffect::Reload),
            BrowserKey::Up => {
                self.move_selection_up();
                (FileBrowserAction::NoAction, BrowserEffect::Nothing)
            },
            BrowserKey::Down => {
                self.move_selection_down();
                (FileBrowserAction::NoAction, BrowserEffect::Nothing)
            },
            BrowserKey::Left => {
                self.collapse_selected_or_parent();
                (FileBrowserAction::NoAction, BrowserEffect::Nothing)
            },
            BrowserKey::Right | BrowserKey::Enter => {
                let effect = self.expand_or_open_selected();
                (FileBrowserAction::NoAction, effect)
            },
            BrowserKey::PageUp => {
                self.content_scroll.page_up();
                (FileBrowserAction::NoAction, BrowserEffect::Nothing)
            },
            BrowserKey::PageDown => {
                self.content_scroll.page_down();
                (FileBrowserAction::NoAction, BrowserEffect::Nothing)
            },
            _ => (FileBrowserAction::NoAction, BrowserEffect::Nothing),
        }
    }
}

fn clone_strings(v: &Vec<String>) -> (r: Vec<String>)
    ensures
        r@ == v@,
{
    let mut r: Vec<String> = Vec::new();
    let mut i: usize = 0;
    while i < v.len()
        invariant
            i <= v@.len(),
            r@ == v@.take(i as int),
        decreases v@.len() - i,
    {
        r.push(v[i].clone());
        i = i + 1;
        assert(r@ =~= v@.take(i as int));
    }
    assert(v@.take(v@.len() as int) =~= v@);
    r
}

/// Paths of the directories among the children `cs`.
pub open spec fn dirs_among(t: Seq<NodeView>, cs: Seq<usize>) -> Set<Seq<char>>
    decreases cs.len(),
{
    if cs.len() == 0 {
        Set::empty()
    } else {
        let before = dirs_among(t, cs.drop_last());
        let c = cs.last() as int;
        if t[c].2 { before.insert(t[c].1) } else { before }
    }
}

/// What the debug fixture opens: every top entry, and the directories
/// directly inside the top directories.
pub open spec fn fixture_open(t: Seq<NodeView>, cs: Seq<usize>) -> Set<Seq<char>>
    decreases cs.len(),
{
    if cs.len() == 0 {
        Set::empty()
    } else {
        let before = fixture_open(t, cs.drop_last()).insert(t[cs.last() as int].1);
        let c = cs.last() as int;
        if t[c].2 { before.union(dirs_among(t, t[c].3)) } else { before }
    }
}

impl FileBrowserApp {
    /// Adds the directories among the children of node `n` to the open set.
    fn open_dirs_among(&mut self, n: usize)
        requires
            old(self).wf(),
            n < old(self).root.nodes@.len(),
        ensures
            final(self).wf(),
            open_set(final(self).expanded_dirs@) == open_set(old(self).expanded_dirs@).union(
                dirs_among(old(self).root@, old(self).root@[n as int].3)),
            *final(self) == (FileBrowserApp { expanded_dirs: final(self).expanded_dirs, ..*old(self) }),
    {
        let ghost t = self.root@;
        let ghost start = open_set(self.expanded_dirs@);
        let mut i: usize = 0;
        let count = self.root.nodes[n].children.len();
        assert(self.root@[n as int].3.take(0) =~= Seq::<usize>::empty());
        while i < count
            invariant
                self.wf(),
                t == self.root@,
                n < t.len(),
                count == t[n as int].3.len(),
                i <= count,
                open_set(self.expanded_dirs@) == start.union(dirs_among(t, t[n as int].3.take(i as int))),
                *self == (FileBrowserApp { expanded_dirs: self.expanded_dirs, ..*old(self) }),
            decreases count - i,
        {
            let c = self.root.nodes[n].children[i];
            assert(t[n as int].3.take(i + 1).drop_last() =~= t[n as int].3.take(i as int));
            assert(t[n as int].3.take(i + 1).last() == c);
            assert(c < t.len());
            if self.root.nodes[c].is_dir {
                let p = self.root.nodes[c].path.clone();
                insert_str(&mut self.expanded_dirs, p);
            }
            i = i + 1;
            assert(open_set(self.expanded_dirs@) =~= start.union(dirs_among(t, t[n as int].3.take(i as int))));
        }
        assert(t[n as int].3.take(count as int) =~= t[n as int].3);
    }

    /// Takes a fresh workspace index (from a walk): children in display
    /// order, the top directories open the first time, the rows rebuilt, and
    /// the open file kept only while it still exists. Returns the file to
    /// open when none is open yet.
    pub fn apply_workspace(&mut self, root: FileTree, files: Vec<String>) -> (effect: BrowserEffect)
        requires
            old(self).wf(),
            root.wf(),
            root.nodes@.len() < usize::MAX,
        ensures
            final(self).wf(),
            tree_sorted(root@, final(self).root@),
            final(self).files == files,
            open_set(final(self).expanded_dirs@) == if old(self).expanded_dirs@.len() == 0 {
                dirs_among(final(self).root@, final(self).root@[0].3)
            } else {
                open_set(old(self).expanded_dirs@)
            },
            rebuilt(*old(self), *final(self)),
            match old(self).active_file {
                None => {
                    &&& final(self).active_file is None
                    &&& final(self).content_scroll == old(self).content_scroll
                    &&& if files@.len() > 0 {
                        effect matches BrowserEffect::Open(p) && p == files@[0]
                    } else {
                        effect is Nothing
                    }
                },
                Some(a) => {
                    &&& effect is Nothing
                    &&& if strings_view(files@).contains(a@) {
                        final(self).active_file == old(self).active_file && final(self).content_scroll == old(self).content_scroll
                    } else {
                        &&& final(self).active_file is None
                        &&& final(self).content_scroll.total == 0
                        &&& final(self).content_scroll.offset == 0
                    }
                },
            },
            final(self).finder == old(self).finder,
            final(self).status_line == old(self).status_line,
            final(self).workspace_root == old(self).workspace_root,
    {
        let mut root = root;
        root.sort_recursive();
        let ghost old_self = *self;
        self.root = root;
        self.files = files;
        if self.expanded_dirs.len() == 0 {
            assert(open_set(self.expanded_dirs@) =~= Set::<Seq<char>>::empty());
            self.open_dirs_among(0);
            assert(open_set(self.expanded_dirs@) =~= dirs_among(self.root@, self.root@[0].3));
        }
        let ghost before_rebuild = *self;
        self.rebuild_visible_entries();
        assert(rebuilt(old_self, *self));
        match &self.active_file {
            None => {
                if self.files.len() > 0 {
                    return BrowserEffect::Open(self.files[0].clone());
                }
                BrowserEffect::Nothing
            },
            Some(a) => {
                if !contains_str(&self.files, a.as_str()) {
                    self.active_file = None;
                    self.content_scroll.set_total(0);
                }
                BrowserEffect::Nothing
            },
        }
    }

    /// A refresh (Ctrl+R) finished: the new index, or why the walk failed.
    pub fn refresh_finished(&mut self, outcome: Result<(FileTree, Vec<String>), String>) -> (effect: BrowserEffect)
        requires
            old(self).wf(),
            outcome matches Ok(ix) ==> ix.0.wf() && ix.0.nodes@.len() < usize::MAX,
        ensures
            final(self).wf(),
            match outcome {
                Ok(ix) => final(self).files == ix.1 && final(self).status_line@ == "Workspace refreshed"@,
                Err(e) => effect is Nothing && *final(self) == (FileBrowserApp { status_line: final(self).status_line, ..*old(self) })
                    && final(self).status_line@ == "Workspace refresh failed: "@ + e@,
            },
    {
        match outcome {
            Ok((root, files)) => {
                let effect = self.apply_workspace(root, files);
                self.status_line = to_owned("Workspace refreshed");
                effect
            },
            Err(e) => {
                self.status_line = to_owned("Workspace refresh failed: ").concat(e.as_str());
                BrowserEffect::Nothing
            },
        }
    }

    /// The first load failed (the browser starts empty).
    pub fn load_failed(&mut self, error: &str)
        ensures
            *final(self) == (FileBrowserApp { status_line: final(self).status_line, ..*old(self) }),
            final(self).status_line@ == "Failed to read workspace: "@ + error@,
    {
        self.status_line = to_owned("Failed to read workspace: ").concat(error);
    }

    /// The app read `path`, whose preview has `line_count` lines.
    pub fn file_opened(&mut self, path: String, line_count: usize)
        ensures
            final(self).active_file == Some(path),
            final(self).content_scroll.offset == 0,
            final(self).content_scroll.total == line_count,
            final(self).content_scroll.page_size == old(self).content_scroll.page_size,
            final(self).content_scroll.wf(),
            final(self).status_line@ == "Opened "@ + path@,
            *final(self) == (FileBrowserApp {
                active_file: final(self).active_file,
                content_scroll: final(self).content_scroll,
                status_line: final(self).status_line,
                ..*old(self)
            }),
    {
        self.status_line = to_owned("Opened ").concat(path.as_str());
        self.active_file = Some(path);
        self.content_scroll.set_offset(0);
        self.content_scroll.set_total(line_count);
    }

    /// The app could not read `path`.
    pub fn open_failed(&mut self, path: &str)
        ensures
            final(self).status_line@ == "Could not read "@ + path@,
            *final(self) == (FileBrowserApp { status_line: final(self).status_line, ..*old(self) }),
    {
        self.status_line = to_owned("Could not read ").concat(path);
    }

    /// Loads the fixed debug workspace; returns its first file to open.
    pub fn load_debug_fixture(&mut self) -> (effect: BrowserEffect)
        requires
            old(self).wf(),
        ensures
            final(self).wf(),
            tree_sorted(
                insert_files(seq![("debug-workspace"@, Seq::<char>::empty(), true, Seq::<usize>::empty())], debug_paths()),
                final(self).root@,
            ),
            paths_sorted(dfs_files(final(self).root@, 0, final(self).root@[0].3), strings_view(final(self).files@)),
            open_set(final(self).expanded_dirs@) == fixture_open(final(self).root@, final(self).root@[0].3),
            entries_view(final(self).visible_entries@) == final(self).rows(),
            final(self).selected_index == 0,
            final(self).tree_scroll.offset == 0,
            final(self).content_scroll.offset == 0,
            !final(self).finder.active,
            final(self).status_line@ == "Debug fixture loaded. Use Up/Down to scroll the tree and content."@,
            if final(self).files@.len() > 0 {
                effect matches BrowserEffect::Open(p) && p == final(self).files@[0]
            } else {
                effect is Nothing
            },
    {
        let root = build_debug_tree();
        let files = root.collect_files();
        self.root = root;
        self.files = files;
        self.expanded_dirs = Vec::new();
        assert(open_set(self.expanded_dirs@) =~= Set::<Seq<char>>::empty());
        let ghost t = self.root@;
        let ghost before = *self;
        let count = self.root.nodes[0].children.len();
        let mut i: usize = 0;
        assert(t[0].3.take(0) =~= Seq::<usize>::empty());
        while i < count
            invariant
                self.wf(),
                *self == (FileBrowserApp { expanded_dirs: self.expanded_dirs, ..before }),
                t == self.root@,
                count == t[0].3.len(),
                i <= count,
                open_set(self.expanded_dirs@) == fixture_open(t, t[0].3.take(i as int)),
            decreases count - i,
        {
            let c = self.root.nodes[0].children[i];
            assert(t[0].3.take(i + 1).drop_last() =~= t[0].3.take(i as int));
            assert(t[0].3.take(i + 1).last() == c);
            assert(0 < c && c < t.len());
            let p = self.root.nodes[c].path.clone();
            insert_str(&mut self.expanded_dirs, p);
            if self.root.nodes[c].is_dir {
                self.open_dirs_among(c);
            }
            i = i + 1;
            assert(open_set(self.expanded_dirs@) =~= fixture_open(t, t[0].3.take(i as int)));
        }
        assert(t[0].3.take(count as int) =~= t[0].3);
        self.rebuild_visible_entries();
        self.selected_index = 0;
        self.tree_scroll.set_offset(0);
        self.content_scroll.set_offset(0);
        self.finder.deactivate();
        self.status_line = to_owned("Debug fixture loaded. Use Up/Down to scroll the tree and content.");
        if self.files.len() > 0 {
            return BrowserEffect::Open(self.files[0].clone());
        }
        BrowserEffect::Nothing
    }
}

impl FileBrowserApp {
    /// Whether every file path is short enough for the finder's matcher.
    pub fn files_fit(&self) -> (r: bool)
        ensures
            r == paths_fit(self.files@),
    {
        let mut i: usize = 0;
        while i < self.files.len()
            invariant
                i <= self.files@.len(),
                forall|j: int| 0 <= j < i ==> (#[trigger] self.files@[j])@.len() <= u32::MAX,
            decreases self.files@.len() - i,
        {
            if self.files[i].as_str().unicode_len() > u32::MAX as usize {
                return false;
            }
            i = i + 1;
        }
        true
    }
}

pub open spec fn opt_string_view(o: Option<String>) -> Option<Seq<char>> {
    match o {
        Some(a) => Some(a@),
        None => None,
    }
}

/// The finder's matches among the first `k`, as (is selected, path).
pub open spec fn finder_rows_of(f: FuzzyFinder<String>, k: nat) -> Seq<(bool, Seq<char>)>
    decreases k,
{
    if k == 0 {
        Seq::empty()
    } else {
        let before = finder_rows_of(f, (k - 1) as nat);
        let idx = f.filtered@[k - 1].0;
        if idx < f.items@.len() {
            before.push((before.len() == f.selected, f.items@[idx as int]@))
        } else {
            before
        }
    }
}

/// The rows drawn from `offset` on, at most `page` of them (at least one).
pub open spec fn drawn_rows(es: Seq<EntryView>, offset: nat, page: nat, selected: nat, active: Option<Seq<char>>) -> Seq<(Seq<char>, u16, bool, bool, bool, bool)> {
    let shown = if page > 1 { page } else { 1 };
    let start = if offset < es.len() { offset } else { es.len() };
    let count = if start + shown <= es.len() { shown } else { (es.len() - start) as nat };
    Seq::new(count, |k: int| {
        let e = es[start + k];
        (e.0, e.2, e.3, e.4, start + k == selected, active == Some(e.1))
    })
}

pub open spec fn row_view(r: FileTreeRow) -> (Seq<char>, u16, bool, bool, bool, bool) {
    (r.name@, r.depth, r.is_dir, r.expanded, r.selected, r.active)
}

/// The last path component when it names something, as `Path::file_name` reads it.
pub open spec fn file_name_of(p: Seq<char>) -> Option<Seq<char>> {
    let cs = components(p);
    if cs.len() > 0 && cs.last() != seq!['/'] && cs.last() != seq!['.'] && cs.last() != seq!['.', '.'] {
        Some(cs.last())
    } else {
        None
    }
}

/// The workspace's name in the breadcrumb: its directory name, or the whole path.
pub open spec fn root_label(root: Seq<char>) -> Seq<char> {
    match file_name_of(root) {
        Some(n) => n,
        None => root,
    }
}

/// The breadcrumb: the workspace name, then the open file's components.
pub open spec fn breadcrumb_text(root: Seq<char>, active: Option<Seq<char>>) -> Seq<char> {
    match active {
        None => root_label(root) + " > (no file selected)"@,
        Some(a) => join_with(seq![root_label(root)] + components(a), " > "@),
    }
}

impl FileBrowserApp {
    /// Sets the page sizes (at least one row each); says whether they changed.
    pub fn sync_viewports(&mut self, tree_page_size: usize, content_page_size: usize) -> (changed: bool)
        ensures
            changed == (old(self).tree_scroll.page_size != (if tree_page_size > 1 { tree_page_size } else { 1 })
                || old(self).content_scroll.page_size != (if content_page_size > 1 { content_page_size } else { 1 })),
            changed ==> final(self).tree_scroll.page_size == (if tree_page_size > 1 { tree_page_size } else { 1 })
                && final(self).content_scroll.page_size == (if content_page_size > 1 { content_page_size } else { 1 })
                && final(self).tree_scroll.offset == min_nat(old(self).tree_scroll.offset as nat,
                    max_offset_of(old(self).tree_scroll.total as nat, final(self).tree_scroll.page_size as nat))
                && final(self).content_scroll.offset == min_nat(old(self).content_scroll.offset as nat,
                    max_offset_of(old(self).content_scroll.total as nat, final(self).content_scroll.page_size as nat))
                && final(self).tree_scroll.total == old(self).tree_scroll.total
                && final(self).content_scroll.total == old(self).content_scroll.total,
            !changed ==> *final(self) == *old(self),
            *final(self) == (FileBrowserApp {
                tree_scroll: final(self).tree_scroll,
                content_scroll: final(self).content_scroll,
                ..*old(self)
            }),
            old(self).wf() ==> final(self).wf(),
    {
        let tree_page = if tree_page_size > 1 { tree_page_size } else { 1 };
        let content_page = if content_page_size > 1 { content_page_size } else { 1 };
        let changed = self.tree_scroll.page_size != tree_page || self.content_scroll.page_size != content_page;
        if changed {
            self.tree_scroll.set_page_size(tree_page);
            self.content_scroll.set_page_size(content_page);
        }
        changed
    }

    /// The rows on screen.
    pub fn tree_rows(&self) -> (rows: Vec<FileTreeRow>)
        ensures
            rows@.map_values(|r: FileTreeRow| row_view(r)) == drawn_rows(entries_view(self.visible_entries@),
                self.tree_scroll.offset as nat, self.tree_scroll.page_size as nat, self.selected_index as nat,
                opt_string_view(self.active_file)),
    {
        let ghost es = entries_view(self.visible_entries@);
        let ghost act = opt_string_view(self.active_file);
        let n = self.visible_entries.len();
        let shown = if self.tree_scroll.page_size > 1 { self.tree_scroll.page_size } else { 1 };
        let start = if self.tree_scroll.offset < n { self.tree_scroll.offset } else { n };
        let count = if shown <= n - start { shown } else { n - start };
        let ghost target = drawn_rows(es, self.tree_scroll.offset as nat, self.tree_scroll.page_size as nat,
            self.selected_index as nat, act);
        let mut rows: Vec<FileTreeRow> = Vec::new();
        let mut k: usize = 0;
        while k < count
            invariant
                es == entries_view(self.visible_entries@),
                n == self.visible_entries@.len(),
                start + count <= n,
                target.len() == count,
                target == drawn_rows(es, self.tree_scroll.offset as nat, self.tree_scroll.page_size as nat,
                    self.selected_index as nat, act),
                act == opt_string_view(self.active_file),
                start == (if self.tree_scroll.offset < n { self.tree_scroll.offset as nat } else { n as nat }),
                k <= count,
                rows@.len() == k,
                forall|j: int| 0 <= j < k ==> #[trigger] row_view(rows@[j]) == target[j],
            decreases count - k,
        {
            let e = &self.visible_entries[start + k];
            let active = match &self.active_file {
                Some(a) => str_eq(a.as_str(), e.path.as_str()),
                None => false,
            };
            rows.push(FileTreeRow {
                name: e.name.clone(),
                depth: e.depth,
                is_dir: e.is_dir,
                expanded: e.expanded,
                selected: start + k == self.selected_index,
                active,
            });
            k = k + 1;
        }
        assert(rows@.map_values(|r: FileTreeRow| row_view(r)) =~= target);
        rows
    }

    pub fn status_line(&self) -> (r: &str)
        ensures
            r@ == self.status_line@,
    {
        self.status_line.as_str()
    }

    pub fn is_finder_active(&self) -> (r: bool)
        ensures
            r == self.finder.active,
    {
        self.finder.active
    }

    pub fn finder_query(&self) -> (r: &str)
        ensures
            r@ == self.finder.query@,
    {
        self.finder.query.as_str()
    }

    pub fn workspace_title(&self) -> (r: String)
        ensures
            r@ == self.workspace_root@,
    {
        self.workspace_root.clone()
    }

    /// The finder's matches as (is selected, path).
    pub fn finder_rows(&self) -> (rows: Vec<(bool, String)>)
        ensures
            rows@.map_values(|r: (bool, String)| (r.0, r.1@)) == finder_rows_of(self.finder, self.finder.filtered@.len()),
    {
        let mut rows: Vec<(bool, String)> = Vec::new();
        let mut k: usize = 0;
        while k < self.finder.filtered.len()
            invariant
                k <= self.finder.filtered@.len(),
                rows@.map_values(|r: (bool, String)| (r.0, r.1@)) == finder_rows_of(self.finder, k as nat),
            decreases self.finder.filtered@.len() - k,
        {
            let idx = self.finder.filtered[k].0;
            if idx < self.finder.items.len() {
                let ghost before = rows@;
                rows.push((rows.len() == self.finder.selected, self.finder.items[idx].clone()));
                assert(rows@.map_values(|r: (bool, String)| (r.0, r.1@))
                    =~= before.map_values(|r: (bool, String)| (r.0, r.1@)).push((before.len() == self.finder.selected, self.finder.items@[idx as int]@)));
            }
            k = k + 1;
        }
        rows
    }

    /// Where the open file sits, from the workspace down.
    pub fn breadcrumb(&self) -> (r: String)
        ensures
            r@ == breadcrumb_text(self.workspace_root@, opt_string_view(self.active_file)),
    {
        let root_comps = path_components(self.workspace_root.as_str());
        let label: Vec<char> = if root_comps.len() > 0 {
            let last = &root_comps[root_comps.len() - 1];
            let special = (last.len() == 1 && (last[0] == '/' || last[0] == '.'))
                || (last.len() == 2 && last[0] == '.' && last[1] == '.');
            proof {
                let l = last@;
                if l == seq!['/'] || l == seq!['.'] { assert(l.len() == 1); }
                if l == seq!['.', '.'] { assert(l.len() == 2); }
                if last.len() == 1 && last[0] == '/' { assert(l =~= seq!['/']); }
                if last.len() == 1 && last[0] == '.' { assert(l =~= seq!['.']); }
                if last.len() == 2 && last[0] == '.' && last[1] == '.' { assert(l =~= seq!['.', '.']); }
            }
            if special { chars_of(self.workspace_root.as_str()) } else { last.clone() }
        } else {
            chars_of(self.workspace_root.as_str())
        };
        assert(label@ == root_label(self.workspace_root@));
        match &self.active_file {
            None => {
                let mut out = label;
                let mut tail = chars_of(" > (no file selected)");
                out.append(&mut tail);
                crate::strs::string_from_chars(out.as_slice())
            },
            Some(a) => {
                let comps = path_components(a.as_str());
                let mut parts: Vec<Vec<char>> = Vec::new();
                parts.push(label);
                let mut i: usize = 0;
                while i < comps.len()
                    invariant
                        i <= comps@.len(),
                        parts@.len() == i + 1,
                        parts@[0]@ == root_label(self.workspace_root@),
                        forall|j: int| 0 <= j < i ==> #[trigger] parts@[j + 1]@ == comps@[j]@,
                    decreases comps@.len() - i,
                {
                    parts.push(comps[i].clone());
                    i = i + 1;
                }
                let sep = chars_of(" > ");
                let joined = join_with_str(&parts, &sep);
                proof {
                    let pv = parts@.map_values(|p: Vec<char>| p@);
                    let cv = comps@.map_values(|p: Vec<char>| p@);
                    assert(cv == components(a@));
                    let want = seq![root_label(self.workspace_root@)] + components(a@);
                    assert(pv.len() == want.len());
                    assert forall|j: int| 0 <= j < pv.len() implies pv[j] == want[j] by {
                        if j == 0 {
                            assert(pv[0] == parts@[0]@);
                        } else {
                            assert(pv[j] == parts@[(j - 1) + 1]@);
                            assert(parts@[(j - 1) + 1]@ == comps@[j - 1]@);
                            assert(cv[j - 1] == comps@[j - 1]@);
                        }
                    }
                    assert(pv =~= want);
                }
                crate::strs::string_from_chars(joined.as_slice())
            },
        }
    }
}

/// `parts` joined with `sep` between them.
fn join_with_str(parts: &Vec<Vec<char>>, sep: &Vec<char>) -> (r: Vec<char>)
    ensures
        r@ == join_with(parts@.map_values(|p: Vec<char>| p@), sep@),
{
    let ghost pv = parts@.map_values(|p: Vec<char>| p@);
    let mut r: Vec<char> = Vec::new();
    let mut i: usize = 0;
    assert(pv.take(0) =~= Seq::<Seq<char>>::empty());
    while i < parts.len()
        invariant
            i <= parts@.len(),
            pv == parts@.map_values(|p: Vec<char>| p@),
            r@ == join_with(pv.take(i as int), sep@),
        decreases parts@.len() - i,
    {
        let ghost before = r@;
        if i > 0 {
            let mut s = sep.clone();
            r.append(&mut s);
        }
        let mut p = parts[i].clone();
        r.append(&mut p);
        proof {
            let t = pv.take(i + 1);
            assert(t.drop_last() =~= pv.take(i as int));
            assert(t.last() == parts@[i as int]@);
            if i == 0 {
                assert(t =~= seq![parts@[0]@]);
            }
            assert(r@ =~= join_with(t, sep@));
        }
        i = i + 1;
    }
    assert(pv.take(parts@.len() as int) =~= pv);
    r
}


/// The screen change a browser action asks for: none, quitting, or going
/// back to the screen the browser was opened from.
pub fn map_file_browser_action(action: FileBrowserAction) -> (r: Option<ScreenAction>)
    ensures
        r == match action {
            FileBrowserAction::NoAction => None,
            FileBrowserAction::Quit => Some(ScreenAction::Quit),
            FileBrowserAction::ExitToChat => Some(ScreenAction::ReturnToPrevious),
        },
{
    match action {
        FileBrowserAction::NoAction => None,
        FileBrowserAction::Quit => Some(ScreenAction::Quit),
        FileBrowserAction::ExitToChat => Some(ScreenAction::ReturnToPrevious),
    }
}

} // verus!
