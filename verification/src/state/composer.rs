//! Input composer: whether keys go to the text input or to the `@` file finder.

use vstd::prelude::*;
use crate::fuzzy_finder::{FileEntry, FuzzyFinder, paths_fit, results_for};

verus! {

/// Composer mode for input handling
#[derive(Debug, Clone, Copy, PartialEq, Eq, Structural)]
pub enum ComposerMode {
    /// Normal text input
    Normal,
    /// Fuzzy file finder active
    FuzzyFinder,
}

impl Default for ComposerMode {
    fn default() -> (m: Self)
        ensures
            m == ComposerMode::Normal,
    {
        ComposerMode::Normal
    }
}

/// Input composer state
#[derive(Debug, Clone)]
pub struct ComposerState {
    /// Composer mode
    pub composer_mode: ComposerMode,
    /// Active fuzzy finder (if any)
    pub fuzzy_finder: Option<FuzzyFinder>,
}

impl ComposerState {
    pub fn new() -> (s: Self)
        ensures
            s.composer_mode == ComposerMode::Normal,
            s.fuzzy_finder is None,
    {
        ComposerState { composer_mode: ComposerMode::Normal, fuzzy_finder: None }
    }

    /// Enter fuzzy finder mode; `walked` is the workspace walk under `cwd`,
    /// `None` when it failed (the mode still switches, with no finder).
    pub fn enter_fuzzy_finder(
        &mut self,
        cwd: String,
        original_input: String,
        original_cursor: usize,
        walked: Option<Vec<FileEntry>>,
    )
        requires
            walked matches Some(es) ==> paths_fit(es@),
        ensures
            final(self).composer_mode == ComposerMode::FuzzyFinder,
            walked is None ==> final(self).fuzzy_finder == old(self).fuzzy_finder,
            walked matches Some(es) ==> final(self).fuzzy_finder matches Some(f) && {
                &&& f.wf()
                &&& f.workspace_root == cwd
                &&& f.original_input == original_input
                &&& f.original_cursor == original_cursor
                &&& f.files@ == es@.filter(|e: FileEntry| !e.is_dir)
                &&& f.pattern@.len() == 0
                &&& f.sort_mode == crate::fuzzy_finder::SortMode::Relevance
                &&& results_for(f.files@, f.pattern@, f.sort_mode, f.results@)
            },
    {
        self.composer_mode = ComposerMode::FuzzyFinder;
        let mut finder = FuzzyFinder::new(cwd, original_input, original_cursor);
        match walked {
            Some(entries) => {
                finder.load_files(entries);
                self.fuzzy_finder = Some(finder);
            },
            None => {},
        }
    }

    /// Exit fuzzy finder mode
    pub fn exit_fuzzy_finder(&mut self)
        ensures
            final(self).composer_mode == ComposerMode::Normal,
            final(self).fuzzy_finder is None,
    {
        self.composer_mode = ComposerMode::Normal;
        self.fuzzy_finder = None;
    }

    /// Check if fuzzy finder is active
    pub fn is_fuzzy_finder_active(&self) -> (r: bool)
        ensures
            r == (self.composer_mode == ComposerMode::FuzzyFinder),
    {
        match self.composer_mode {
            ComposerMode::FuzzyFinder => true,
            ComposerMode::Normal => false,
        }
    }

    /// Get reference to fuzzy finder if active
    pub fn fuzzy_finder(&self) -> (r: Option<&FuzzyFinder>)
        ensures
            r == match &self.fuzzy_finder {
                Some(f) => Some(f),
                None => None::<&FuzzyFinder>,
            },
    {
        match &self.fuzzy_finder {
            Some(f) => Some(f),
            None => None,
        }
    }
}

impl Default for ComposerState {
    fn default() -> (s: Self)
        ensures
            s.composer_mode == ComposerMode::Normal,
            s.fuzzy_finder is None,
    {
        Self::new()
    }
}

} // verus!
