//! The calls the finder makes outside the library: nucleo's fuzzy scoring and
//! std's file-extension split.

use vstd::prelude::*;
use nucleo_matcher::{Config, Matcher, Utf32Str};
use nucleo_matcher::pattern::{CaseMatching, Normalization, Pattern};

verus! {

/// The score nucleo gives `haystack` for `pattern` parsed with smart
/// normalization and case ignored (or smart case), matched with the default
/// configuration; `None` when some atom of the pattern does not match.
pub uninterp spec fn fuzzy_score(pattern: Seq<char>, smart_case: bool, haystack: Seq<char>) -> Option<u32>;

/// The extension std's `Path::extension` finds in `path`.
pub uninterp spec fn file_extension(path: Seq<char>) -> Option<Seq<char>>;

pub open spec fn opt_str_view(o: Option<&str>) -> Option<Seq<char>> {
    match o {
        Some(s) => Some(s@),
        None => None,
    }
}

/// nucleo's `Pattern::parse` and `Pattern::score`: each haystack scored
/// against `pattern` (case ignored, or smart case when asked) with a fresh
/// default-configured `Matcher`. The score
/// depends only on the pattern and the haystack (the matcher's settings that
/// `score` reads are the default ones, or overwritten per atom). nucleo
/// panics on a haystack longer than `u32::MAX` chars, and the per-atom `u16`
/// scores are summed in a `u32`, which the bound on the pattern keeps from
/// overflowing.
#[verifier::external_body]
pub(crate) fn fuzzy_scores(pattern: &str, smart_case: bool, haystacks: &Vec<String>) -> (r: Vec<Option<u32>>)
    requires
        pattern@.len() <= 65536,
        forall|i: int| 0 <= i < haystacks@.len() ==> #[trigger] haystacks@[i]@.len() <= u32::MAX,
    ensures
        r@.len() == haystacks@.len(),
        forall|i: int| 0 <= i < haystacks@.len() ==> #[trigger] r@[i] == fuzzy_score(pattern@, smart_case, haystacks@[i]@),
{
    let mut matcher = Matcher::new(Config::DEFAULT);
    let case = if smart_case { CaseMatching::Smart } else { CaseMatching::Ignore };
    let parsed = Pattern::parse(pattern, case, Normalization::Smart);
    let mut buf: Vec<char> = Vec::new();
    haystacks.iter().map(|h| parsed.score(Utf32Str::new(h, &mut buf), &mut matcher)).collect()
}

/// std's `Path::extension`, read back as UTF-8 (always possible for a path
/// made from a `str`).
#[verifier::external_body]
pub(crate) fn path_extension(path: &str) -> (r: Option<&str>)
    ensures
        opt_str_view(r) == file_extension(path@),
{
    std::path::Path::new(path).extension().and_then(|e| e.to_str())
}

} // verus!
