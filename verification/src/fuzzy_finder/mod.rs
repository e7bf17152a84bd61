//! The `@` file finder: workspace files, fuzzy matching of a pattern against
//! their relative paths, and the order in which matches are listed.

pub mod matching;

use vstd::prelude::*;
use crate::sorting::{SortKey, SortKeyExec, keys_view, is_stable_order, stable_order};
use crate::fuzzy_finder::matching::{fuzzy_score, fuzzy_scores, file_extension, path_extension, opt_str_view};

verus! {

/// File entry for fuzzy finder
#[derive(Debug, Clone)]
pub struct FileEntry {
    /// Full file path
    pub path: String,
    /// Relative path from workspace root
    pub relative_path: String,
    /// Modification time, in nanoseconds since the Unix epoch (negative before it)
    pub modified: Option<i128>,
    /// File size in bytes
    pub size: u64,
    /// Whether this is a directory
    pub is_dir: bool,
}

impl FileEntry {
    /// Get file extension for language detection
    pub fn extension(&self) -> (r: Option<&str>)
        ensures
            opt_str_view(r) == file_extension(self.path@),
    {
        path_extension(self.path.as_str())
    }

    pub fn clone_entry(&self) -> (r: Self)
        ensures
            r == *self,
    {
        FileEntry {
            path: self.path.clone(),
            relative_path: self.relative_path.clone(),
            modified: self.modified,
            size: self.size,
            is_dir: self.is_dir,
        }
    }
}

/// Sort mode for file results
#[derive(Debug, Clone, Copy, PartialEq, Eq, Structural)]
pub enum SortMode {
    /// Sort by fuzzy match relevance (default)
    Relevance,
    /// Sort by modification time (newest first)
    ModifiedTime,
    /// Sort by path alphabetically
    Path,
}

pub open spec fn next_sort_mode(m: SortMode) -> SortMode {
    match m {
        SortMode::Relevance => SortMode::ModifiedTime,
        SortMode::ModifiedTime => SortMode::Path,
        SortMode::Path => SortMode::Relevance,
    }
}

impl SortMode {
    pub fn toggle(&mut self)
        ensures
            *final(self) == next_sort_mode(*old(self)),
    {
        *self = match self {
            SortMode::Relevance => SortMode::ModifiedTime,
            SortMode::ModifiedTime => SortMode::Path,
            SortMode::Path => SortMode::Relevance,
        }
    }
}

impl Default for SortMode {
    fn default() -> (m: Self)
        ensures
            m == SortMode::Relevance,
    {
        SortMode::Relevance
    }
}

/// The key an entry is sorted by under `mode` (with its match score for
/// relevance): higher scores first; newer files first, files without a time
/// after them by path; paths in lexicographic order.
pub open spec fn sort_key(mode: SortMode, e: FileEntry, score: u32) -> SortKey {
    match mode {
        SortMode::Relevance => (0, -(score as int), Seq::empty()),
        SortMode::Path => (0, 0, e.relative_path@),
        SortMode::ModifiedTime => match e.modified {
            Some(t) => (0, -(t as int), Seq::empty()),
            None => (1, 0, e.relative_path@),
        },
    }
}

/// Keys of `entries` under `mode`; `scores` is read only for relevance.
pub open spec fn keys_of(mode: SortMode, entries: Seq<FileEntry>, scores: Seq<u32>) -> Seq<SortKey> {
    Seq::new(entries.len(), |i: int| sort_key(mode, entries[i], if mode == SortMode::Relevance { scores[i] } else { 0 }))
}

/// `out` is `src` rearranged into stable order of the keys under `mode`.
pub open spec fn arranged(mode: SortMode, src: Seq<FileEntry>, scores: Seq<u32>, out: Seq<FileEntry>) -> bool {
    exists|p: Seq<usize>|
        #![trigger is_stable_order(keys_of(mode, src, scores), p)]
        is_stable_order(keys_of(mode, src, scores), p) && out.len() == p.len()
            && forall|k: int| 0 <= k < p.len() ==> #[trigger] out[k] == src[p[k] as int]
}

/// The exec sort key of one entry under `mode`.
fn entry_key(mode: SortMode, e: &FileEntry, score: u32) -> (k: SortKeyExec)
    ensures
        k.view() == sort_key(mode, *e, score),
{
    match mode {
        SortMode::Relevance => SortKeyExec { group: 0, num: score as i128, text: Vec::new() },
        SortMode::Path => SortKeyExec { group: 0, num: 0, text: crate::strs::chars_of(e.relative_path.as_str()) },
        SortMode::ModifiedTime => match e.modified {
            Some(t) => SortKeyExec { group: 0, num: t, text: Vec::new() },
            None => SortKeyExec { group: 1, num: 0, text: crate::strs::chars_of(e.relative_path.as_str()) },
        },
    }
}

/// The exec sort keys of all entries.
fn keys_for(mode: SortMode, entries: &Vec<FileEntry>, scores: &Vec<u32>) -> (keys: Vec<SortKeyExec>)
    requires
        mode == SortMode::Relevance ==> scores@.len() == entries@.len(),
    ensures
        keys_view(keys@) == keys_of(mode, entries@, scores@),
{
    let mut keys: Vec<SortKeyExec> = Vec::new();
    let mut k: usize = 0;
    while k < entries.len()
        invariant
            k <= entries@.len(),
            mode == SortMode::Relevance ==> scores@.len() == entries@.len(),
            keys@.len() == k,
            forall|j: int| 0 <= j < k ==> #[trigger] keys@[j].view() == keys_of(mode, entries@, scores@)[j],
        decreases entries@.len() - k,
    {
        let score = if mode == SortMode::Relevance { scores[k] } else { 0 };
        keys.push(entry_key(mode, &entries[k], score));
        k = k + 1;
    }
    assert(keys_view(keys@) =~= keys_of(mode, entries@, scores@));
    keys
}

/// Entries at the given positions, in that order.
fn pick(entries: &Vec<FileEntry>, p: &Vec<usize>) -> (out: Vec<FileEntry>)
    requires
        forall|k: int| 0 <= k < p@.len() ==> #[trigger] p@[k] < entries@.len(),
    ensures
        out@.len() == p@.len(),
        forall|k: int| 0 <= k < p@.len() ==> #[trigger] out@[k] == entries@[p@[k] as int],
{
    let mut out: Vec<FileEntry> = Vec::new();
    let mut k: usize = 0;
    while k < p.len()
        invariant
            k <= p@.len(),
            out@.len() == k,
            forall|k: int| 0 <= k < p@.len() ==> #[trigger] p@[k] < entries@.len(),
            forall|j: int| 0 <= j < k ==> #[trigger] out@[j] == entries@[p@[j] as int],
        decreases p@.len() - k,
    {
        out.push(entries[p[k]].clone_entry());
        k = k + 1;
    }
    out
}

/// `entries` rearranged into stable order of their keys under `mode`.
pub fn sort_entries(mode: SortMode, entries: &Vec<FileEntry>, scores: &Vec<u32>) -> (out: Vec<FileEntry>)
    requires
        mode == SortMode::Relevance ==> scores@.len() == entries@.len(),
    ensures
        arranged(mode, entries@, scores@, out@),
{
    let keys = keys_for(mode, entries, scores);
    let p = stable_order(&keys);
    let out = pick(entries, &p);
    assert(is_stable_order(keys_of(mode, entries@, scores@), p@));
    out
}

/// A match score counts when the pattern matched with a positive score.
pub open spec fn score_ok(o: Option<u32>) -> bool {
    o matches Some(s) && s > 0
}

pub open spec fn score_value(o: Option<u32>) -> u32 {
    match o {
        Some(s) => s,
        None => 0,
    }
}

/// Whether `pattern` matches an entry's relative path with a positive score.
pub open spec fn match_pred(pattern: Seq<char>) -> spec_fn(FileEntry) -> bool {
    |f: FileEntry| score_ok(fuzzy_score(pattern, false, f.relative_path@))
}

/// The files `pattern` matches, in their original order.
pub open spec fn matched(files: Seq<FileEntry>, pattern: Seq<char>) -> Seq<FileEntry> {
    files.filter(match_pred(pattern))
}

/// The scores of matched entries.
pub open spec fn match_scores(m: Seq<FileEntry>, pattern: Seq<char>) -> Seq<u32> {
    m.map_values(|f: FileEntry| score_value(fuzzy_score(pattern, false, f.relative_path@)))
}

/// The first `n` files whose score (`scores[i]` for file `i`) counts, in file order.
pub open spec fn kept(files: Seq<FileEntry>, scores: Seq<Option<u32>>, n: nat) -> Seq<FileEntry>
    decreases n,
{
    if n == 0 {
        Seq::empty()
    } else {
        let before = kept(files, scores, (n - 1) as nat);
        if score_ok(scores[n - 1]) { before.push(files[n - 1]) } else { before }
    }
}

/// The counting scores among the first `n`, in file order.
pub open spec fn kept_scores(scores: Seq<Option<u32>>, n: nat) -> Seq<u32>
    decreases n,
{
    if n == 0 {
        Seq::empty()
    } else {
        let before = kept_scores(scores, (n - 1) as nat);
        if score_ok(scores[n - 1]) { before.push(score_value(scores[n - 1])) } else { before }
    }
}

/// With the matcher's own scores, the kept files are the matched ones.
proof fn lemma_kept_is_matched(files: Seq<FileEntry>, scores: Seq<Option<u32>>, p: Seq<char>, n: nat)
    requires
        n <= files.len(),
        scores.len() == files.len(),
        forall|j: int| 0 <= j < files.len() ==> #[trigger] scores[j] == fuzzy_score(p, false, files[j].relative_path@),
    ensures
        kept(files, scores, n) == files.take(n as int).filter(match_pred(p)),
        kept_scores(scores, n) == match_scores(kept(files, scores, n), p),
    decreases n,
{
    reveal(Seq::filter);
    if n > 0 {
        lemma_kept_is_matched(files, scores, p, (n - 1) as nat);
        assert(files.take(n as int).drop_last() =~= files.take(n - 1));
        assert(files.take(n as int).last() == files[n - 1]);
        assert(scores[n - 1] == fuzzy_score(p, false, files[n - 1].relative_path@));
        let before = kept(files, scores, (n - 1) as nat);
        if score_ok(scores[n - 1]) {
            assert(match_scores(before.push(files[n - 1]), p) =~= match_scores(before, p).push(score_value(scores[n - 1])));
        }
    } else {
        assert(files.take(0) =~= Seq::<FileEntry>::empty());
    }
}

/// The files whose score counts (`scores[i]` belongs to file `i`), best score
/// first with ties in file order.
pub fn rank_files(files: &Vec<FileEntry>, scores: &Vec<Option<u32>>) -> (out: Vec<FileEntry>)
    requires
        scores@.len() == files@.len(),
    ensures
        arranged(SortMode::Relevance, kept(files@, scores@, files@.len()), kept_scores(scores@, files@.len()), out@),
{
    let n = files.len();
    let mut m: Vec<FileEntry> = Vec::new();
    let mut ms: Vec<u32> = Vec::new();
    let mut k: usize = 0;
    while k < n
        invariant
            n == files@.len(),
            scores@.len() == n,
            k <= n,
            m@ == kept(files@, scores@, k as nat),
            ms@ == kept_scores(scores@, k as nat),
            ms@.len() == m@.len(),
        decreases n - k,
    {
        match scores[k] {
            Some(s) => {
                if s > 0 {
                    m.push(files[k].clone_entry());
                    ms.push(s);
                }
            },
            None => {},
        }
        k = k + 1;
    }
    sort_entries(SortMode::Relevance, &m, &ms)
}

/// Results before the sort mode applies: every file for an empty pattern,
/// else the matched files with the best scores first (ties keep file order).
pub open spec fn base_results(files: Seq<FileEntry>, pattern: Seq<char>, base: Seq<FileEntry>) -> bool {
    if pattern.len() == 0 {
        base == files
    } else {
        arranged(SortMode::Relevance, matched(files, pattern), match_scores(matched(files, pattern), pattern), base)
    }
}

/// `out` is `src` re-sorted for `mode`: relevance keeps the order as it is.
pub open spec fn mode_sorted(mode: SortMode, src: Seq<FileEntry>, out: Seq<FileEntry>) -> bool {
    if mode == SortMode::Relevance {
        out == src
    } else {
        arranged(mode, src, Seq::empty(), out)
    }
}

/// The results the finder shows for `files`, `pattern` and `mode`.
pub open spec fn results_for(files: Seq<FileEntry>, pattern: Seq<char>, mode: SortMode, out: Seq<FileEntry>) -> bool {
    exists|base: Seq<FileEntry>| #[trigger] base_results(files, pattern, base) && mode_sorted(mode, base, out)
}

/// Fuzzy finder state
#[derive(Debug, Clone)]
pub struct FuzzyFinder {
    /// Workspace root directory
    pub workspace_root: String,
    /// All files in workspace
    pub files: Vec<FileEntry>,
    /// Current search pattern
    pub pattern: String,
    /// Matched and filtered results
    pub results: Vec<FileEntry>,
    /// Selected index in results
    pub selected_index: usize,
    /// Original input buffer before fuzzy finder activated
    pub original_input: String,
    /// Cursor position in original input (where @ was typed)
    pub original_cursor: usize,
    /// Current sort mode
    pub sort_mode: SortMode,
    /// Whether hidden files should be shown
    pub show_hidden: bool,
}

/// Paths short enough for the matcher (it panics past `u32::MAX` chars).
pub open spec fn paths_fit(files: Seq<FileEntry>) -> bool {
    forall|i: int| 0 <= i < files.len() ==> (#[trigger] files[i]).relative_path@.len() <= u32::MAX
}

impl FuzzyFinder {
    pub open spec fn wf(&self) -> bool {
        &&& self.pattern@.len() <= 65536
        &&& paths_fit(self.files@)
        &&& self.selected_index < usize::MAX
    }

    /// Create a new fuzzy finder for given workspace
    pub fn new(workspace_root: String, original_input: String, original_cursor: usize) -> (f: Self)
        ensures
            f.wf(),
            f.workspace_root == workspace_root,
            f.files@.len() == 0,
            f.pattern@.len() == 0,
            f.results@.len() == 0,
            f.selected_index == 0,
            f.original_input == original_input,
            f.original_cursor == original_cursor,
            f.sort_mode == SortMode::Relevance,
            !f.show_hidden,
    {
        FuzzyFinder {
            workspace_root,
            files: Vec::new(),
            pattern: String::new(),
            results: Vec::new(),
            selected_index: 0,
            original_input,
            original_cursor,
            sort_mode: SortMode::Relevance,
            show_hidden: false,
        }
    }

    /// Replaces the file list with the non-directory entries of a workspace
    /// walk, in walk order, and recomputes the results.
    pub fn load_files(&mut self, entries: Vec<FileEntry>)
        requires
            old(self).wf(),
            paths_fit(entries@),
        ensures
            final(self).wf(),
            final(self).files@ == entries@.filter(|f: FileEntry| !f.is_dir),
            results_for(final(self).files@, final(self).pattern@, final(self).sort_mode, final(self).results@),
            final(self).pattern == old(self).pattern,
            final(self).sort_mode == old(self).sort_mode,
            final(self).selected_index == old(self).selected_index,
            final(self).show_hidden == old(self).show_hidden,
            final(self).original_input == old(self).original_input,
            final(self).original_cursor == old(self).original_cursor,
            final(self).workspace_root == old(self).workspace_root,
    {
        let ghost pred = |f: FileEntry| !f.is_dir;
        let mut files: Vec<FileEntry> = Vec::new();
        let mut k: usize = 0;
        while k < entries.len()
            invariant
                k <= entries@.len(),
                paths_fit(entries@),
                pred == (|f: FileEntry| !f.is_dir),
                files@ == entries@.take(k as int).filter(pred),
                paths_fit(files@),
            decreases entries@.len() - k,
        {
            proof {
                reveal(Seq::filter);
                assert(entries@.take(k + 1).drop_last() =~= entries@.take(k as int));
                assert(entries@.take(k + 1).last() == entries@[k as int]);
            }
            if !entries[k].is_dir {
                files.push(entries[k].clone_entry());
            }
            k = k + 1;
        }
        assert(entries@.take(entries@.len() as int) =~= entries@);
        self.files = files;
        self.update_results();
    }

    /// Update search pattern and recompute matches
    pub fn set_pattern(&mut self, pattern: String)
        requires
            old(self).wf(),
            pattern@.len() <= 65536,
        ensures
            final(self).wf(),
            final(self).pattern == pattern,
            results_for(final(self).files@, pattern@, final(self).sort_mode, final(self).results@),
            final(self).selected_index == if final(self).results@.len() > 0 {
                if old(self).selected_index < final(self).results@.len() { old(self).selected_index as int } else { final(self).results@.len() - 1 }
            } else {
                0
            },
            final(self).files == old(self).files,
            final(self).sort_mode == old(self).sort_mode,
            final(self).show_hidden == old(self).show_hidden,
            final(self).original_input == old(self).original_input,
            final(self).original_cursor == old(self).original_cursor,
            final(self).workspace_root == old(self).workspace_root,
    {
        self.pattern = pattern;
        self.update_results();
        if self.results.len() > 0 {
            let last = self.results.len() - 1;
            if self.selected_index > last {
                self.selected_index = last;
            }
        } else {
            self.selected_index = 0;
        }
    }

    /// Get current search pattern
    pub fn pattern(&self) -> (r: &str)
        ensures
            r@ == self.pattern@,
    {
        self.pattern.as_str()
    }

    /// Update results based on current pattern and sort mode
    fn update_results(&mut self)
        requires
            old(self).wf(),
        ensures
            final(self).wf(),
            results_for(final(self).files@, final(self).pattern@, final(self).sort_mode, final(self).results@),
            final(self).files == old(self).files,
            final(self).pattern == old(self).pattern,
            final(self).sort_mode == old(self).sort_mode,
            final(self).selected_index == old(self).selected_index,
            final(self).show_hidden == old(self).show_hidden,
            final(self).original_input == old(self).original_input,
            final(self).original_cursor == old(self).original_cursor,
            final(self).workspace_root == old(self).workspace_root,
    {
        let ghost files = self.files@;
        let ghost p = self.pattern@;
        if self.pattern.as_str().unicode_len() == 0 {
            self.results = clone_entries(&self.files);
            assert(base_results(files, p, self.results@));
        } else {
            let n = self.files.len();
            let mut haystacks: Vec<String> = Vec::new();
            let mut k: usize = 0;
            while k < n
                invariant
                    n == self.files@.len(),
                    k <= n,
                    haystacks@.len() == k,
                    forall|j: int| 0 <= j < k ==> #[trigger] haystacks@[j]@ == self.files@[j].relative_path@,
                decreases n - k,
            {
                haystacks.push(self.files[k].relative_path.clone());
                k = k + 1;
            }
            assert(forall|j: int| 0 <= j < haystacks@.len() ==> #[trigger] haystacks@[j]@.len() <= u32::MAX) by {
                assert forall|j: int| 0 <= j < haystacks@.len() implies #[trigger] haystacks@[j]@.len() <= u32::MAX by {
                    assert(self.files@[j].relative_path@.len() <= u32::MAX);
                }
            }
            let scores = fuzzy_scores(self.pattern.as_str(), false, &haystacks);
            proof {
                lemma_kept_is_matched(files, scores@, p, n as nat);
                assert(files.take(n as int) =~= files);
            }
            let sorted = rank_files(&self.files, &scores);
            self.results = sorted;
            assert(base_results(files, p, self.results@));
        }
        let ghost base = self.results@;
        self.sort_results();
        assert(base_results(files, p, base) && mode_sorted(self.sort_mode, base, self.results@));
    }

    /// Sort results based on current sort mode
    fn sort_results(&mut self)
        ensures
            mode_sorted(old(self).sort_mode, old(self).results@, final(self).results@),
            final(self).files == old(self).files,
            final(self).pattern == old(self).pattern,
            final(self).sort_mode == old(self).sort_mode,
            final(self).selected_index == old(self).selected_index,
            final(self).show_hidden == old(self).show_hidden,
            final(self).original_input == old(self).original_input,
            final(self).original_cursor == old(self).original_cursor,
            final(self).workspace_root == old(self).workspace_root,
    {
        match self.sort_mode {
            SortMode::Relevance => {},
            _ => {
                let no_scores: Vec<u32> = Vec::new();
                let sorted = sort_entries(self.sort_mode, &self.results, &no_scores);
                self.results = sorted;
            },
        }
    }

    /// Get current results
    pub fn results(&self) -> (r: &[FileEntry])
        ensures
            r@ == self.results@,
    {
        self.results.as_slice()
    }

    /// Get selected file entry
    pub fn selected(&self) -> (r: Option<&FileEntry>)
        ensures
            match r {
                Some(e) => self.selected_index < self.results@.len() && *e == self.results@[self.selected_index as int],
                None => self.selected_index >= self.results@.len(),
            },
    {
        if self.selected_index < self.results.len() {
            Some(&self.results[self.selected_index])
        } else {
            None
        }
    }

    /// Get selected index
    pub fn selected_index(&self) -> (r: usize)
        ensures
            r == self.selected_index,
    {
        self.selected_index
    }

    /// Move selection up
    pub fn select_up(&mut self)
        requires
            old(self).wf(),
        ensures
            final(self).wf(),
            final(self).selected_index == if old(self).results@.len() > 0 && old(self).selected_index > 0 {
                old(self).selected_index - 1
            } else {
                old(self).selected_index as int
            },
            final(self).results == old(self).results,
            final(self).files == old(self).files,
            final(self).pattern == old(self).pattern,
            final(self).sort_mode == old(self).sort_mode,
    {
        if self.results.len() > 0 && self.selected_index > 0 {
            self.selected_index = self.selected_index - 1;
        }
    }

    /// Move selection down
    pub fn select_down(&mut self)
        requires
            old(self).wf(),
        ensures
            final(self).wf(),
            final(self).selected_index == if old(self).results@.len() > 0 {
                if old(self).selected_index + 1 < old(self).results@.len() { old(self).selected_index + 1 } else { old(self).results@.len() - 1 }
            } else {
                old(self).selected_index as int
            },
            final(self).results == old(self).results,
            final(self).files == old(self).files,
            final(self).pattern == old(self).pattern,
            final(self).sort_mode == old(self).sort_mode,
    {
        if self.results.len() > 0 {
            let last = self.results.len() - 1;
            let next = self.selected_index + 1;
            self.selected_index = if next < last { next } else { last };
        }
    }

    /// Toggle sort mode and re-sort the current results
    pub fn toggle_sort(&mut self)
        requires
            old(self).wf(),
        ensures
            final(self).wf(),
            final(self).sort_mode == next_sort_mode(old(self).sort_mode),
            mode_sorted(final(self).sort_mode, old(self).results@, final(self).results@),
            final(self).files == old(self).files,
            final(self).pattern == old(self).pattern,
            final(self).selected_index == old(self).selected_index,
            final(self).show_hidden == old(self).show_hidden,
    {
        self.sort_mode.toggle();
        self.sort_results();
    }

    /// Get current sort mode
    pub fn sort_mode(&self) -> (r: SortMode)
        ensures
            r == self.sort_mode,
    {
        self.sort_mode
    }

    /// Toggle hidden files visibility; the caller then walks the workspace
    /// again with the new setting and hands the entries to `load_files`.
    pub fn toggle_hidden(&mut self)
        ensures
            final(self).show_hidden == !old(self).show_hidden,
            final(self).files == old(self).files,
            final(self).results == old(self).results,
            final(self).pattern == old(self).pattern,
            final(self).sort_mode == old(self).sort_mode,
            final(self).selected_index == old(self).selected_index,
    {
        self.show_hidden = !self.show_hidden;
    }

    /// Check if hidden files are shown
    pub fn show_hidden(&self) -> (r: bool)
        ensures
            r == self.show_hidden,
    {
        self.show_hidden
    }

    /// Get original input buffer
    pub fn original_input(&self) -> (r: &str)
        ensures
            r@ == self.original_input@,
    {
        self.original_input.as_str()
    }

    /// Get original cursor position
    pub fn original_cursor(&self) -> (r: usize)
        ensures
            r == self.original_cursor,
    {
        self.original_cursor
    }

    /// Get count of matched files
    pub fn match_count(&self) -> (r: usize)
        ensures
            r == self.results@.len(),
    {
        self.results.len()
    }

    /// Get total file count
    pub fn total_file_count(&self) -> (r: usize)
        ensures
            r == self.files@.len(),
    {
        self.files.len()
    }
}

/// A copy of every entry.
fn clone_entries(entries: &Vec<FileEntry>) -> (out: Vec<FileEntry>)
    ensures
        out@ == entries@,
{
    let mut out: Vec<FileEntry> = Vec::new();
    let mut k: usize = 0;
    while k < entries.len()
        invariant
            k <= entries@.len(),
            out@ == entries@.take(k as int),
        decreases entries@.len() - k,
    {
        out.push(entries[k].clone_entry());
        k = k + 1;
        assert(out@ =~= entries@.take(k as int));
    }
    assert(entries@.take(entries@.len() as int) =~= entries@);
    out
}

} // verus!
