//! Syntax highlighting of a file preview: syntect colours the lines, and the
//! preview numbers them from one, keeps a line plain where syntect fails on
//! it, and always shows at least one line.

use vstd::prelude::*;
use syntect::easy::HighlightLines;
use syntect::highlighting::{FontStyle, ThemeSet};
use syntect::parsing::SyntaxSet;
use crate::strs::{str_eq, to_owned};

verus! {

/// One run of a highlighted line: its text, its foreground colour and
/// whether it is bold.
#[derive(Debug, Clone)]
pub struct HighlightSegment {
    pub text: String,
    pub r: u8,
    pub g: u8,
    pub b: u8,
    pub bold: bool,
}

/// A highlighted line of the preview, numbered from one.
#[derive(Debug, Clone)]
pub struct HighlightedLine {
    pub line_number: usize,
    pub segments: Vec<HighlightSegment>,
}

/// A segment as plain values: text, red, green, blue, bold.
pub open spec fn seg_view(s: HighlightSegment) -> (Seq<char>, u8, u8, u8, bool) {
    (s.text@, s.r, s.g, s.b, s.bold)
}

pub open spec fn segs_view(v: Vec<HighlightSegment>) -> Seq<(Seq<char>, u8, u8, u8, bool)> {
    v@.map_values(|s: HighlightSegment| seg_view(s))
}

/// A highlighted line as plain values: its number and its segments.
pub open spec fn line_view(l: HighlightedLine) -> (nat, Seq<(Seq<char>, u8, u8, u8, bool)>) {
    (l.line_number as nat, segs_view(l.segments))
}

/// What syntect's highlighter gives `lines`, fed one after another to a
/// highlighter for the syntax and the theme of these names (from syntect's
/// default sets): per line its coloured runs, or `None` where highlighting
/// that line failed; `None` in all when no syntax or theme has the name.
pub uninterp spec fn syntect_highlight(
    syntax_name: Seq<char>,
    theme_name: Seq<char>,
    lines: Seq<Seq<char>>,
) -> Option<Seq<Option<Seq<(Seq<char>, u8, u8, u8, bool)>>>>;

pub open spec fn rows_view(v: Vec<Option<Vec<HighlightSegment>>>) -> Seq<Option<Seq<(Seq<char>, u8, u8, u8, bool)>>> {
    v@.map_values(|o: Option<Vec<HighlightSegment>>| match o {
        Some(s) => Some(segs_view(s)),
        None => None,
    })
}

pub open spec fn highlight_view(h: Option<Vec<Option<Vec<HighlightSegment>>>>) -> Option<Seq<Option<Seq<(Seq<char>, u8, u8, u8, bool)>>>> {
    match h {
        Some(v) => Some(rows_view(v)),
        None => None,
    }
}

pub open spec fn texts_view(v: Seq<String>) -> Seq<Seq<char>> {
    v.map_values(|s: String| s@)
}

/// syntect's `HighlightLines::highlight_line` over `lines`, with the syntax
/// and theme found by name in `SyntaxSet::load_defaults_newlines` and
/// `ThemeSet::load_defaults`; each run's style is read as its foreground RGB
/// and whether `FontStyle::BOLD` is set. The result is named, one entry per line.
#[verifier::external_body]
fn highlight_lines_with(syntax_name: &str, theme_name: &str, lines: &Vec<String>) -> (r: Option<Vec<Option<Vec<HighlightSegment>>>>)
    ensures
        highlight_view(r) == syntect_highlight(syntax_name@, theme_name@, texts_view(lines@)),
        r matches Some(v) ==> v@.len() == lines@.len(),
{
    let ss = SyntaxSet::load_defaults_newlines();
    let ts = ThemeSet::load_defaults();
    let mut h = HighlightLines::new(ss.find_syntax_by_name(syntax_name)?, ts.themes.get(theme_name)?);
    Some(lines.iter().map(|l| h.highlight_line(l, &ss).ok().map(|rs| rs.into_iter().map(|(st, t)| HighlightSegment {
        text: t.to_string(), r: st.foreground.r, g: st.foreground.g, b: st.foreground.b,
        bold: st.font_style.contains(FontStyle::BOLD),
    }).collect())).collect())
}

/// syntect's `SyntaxSet::find_syntax_for_file` in the default set: the name of
/// the syntax for a file, by its name or extension, else by its first line
/// read from disk. It may read the disk, so nothing is stated of the result;
/// `None` stands for an error or no match.
#[verifier::external_body]
fn syntax_for_file(path: &str) -> (r: Option<String>) {
    SyntaxSet::load_defaults_newlines().find_syntax_for_file(path).ok().flatten().map(|s| s.name.clone())
}

/// The names of the themes in syntect's `ThemeSet::load_defaults`, in the
/// set's order. Nothing is stated of them.
#[verifier::external_body]
fn default_theme_names() -> (r: Vec<String>) {
    ThemeSet::load_defaults().themes.keys().cloned().collect()
}

/// The theme the preview prefers.
pub open spec fn preferred_theme() -> Seq<char> {
    "base16-mocha.dark"@
}

/// The preferred theme when it is among `names`, else the first one.
pub open spec fn chosen_theme(names: Seq<Seq<char>>) -> Option<Seq<char>> {
    if names.contains(preferred_theme()) {
        Some(preferred_theme())
    } else if names.len() > 0 {
        Some(names[0])
    } else {
        None
    }
}

/// Picks the theme: the preferred one when there is one of that name, else
/// the first theme there is.
pub fn choose_theme(names: &Vec<String>) -> (r: Option<String>)
    ensures
        match r {
            Some(t) => chosen_theme(texts_view(names@)) == Some(t@),
            None => chosen_theme(texts_view(names@)) is None,
        },
{
    let mut i: usize = 0;
    while i < names.len()
        invariant
            i <= names@.len(),
            forall|j: int| 0 <= j < i ==> names@[j]@ != preferred_theme(),
        decreases names@.len() - i,
    {
        if str_eq(names[i].as_str(), "base16-mocha.dark") {
            assert(texts_view(names@)[i as int] == preferred_theme());
            return Some(to_owned("base16-mocha.dark"));
        }
        i = i + 1;
    }
    assert(!texts_view(names@).contains(preferred_theme())) by {
        if texts_view(names@).contains(preferred_theme()) {
            let j = choose|j: int| 0 <= j < texts_view(names@).len() && texts_view(names@)[j] == preferred_theme();
            assert(names@[j]@ == preferred_theme());
        }
    }
    if names.len() > 0 {
        Some(names[0].clone())
    } else {
        None
    }
}

/// A line shown without colour: all its text in one run, black, not bold
/// (syntect's default style).
pub open spec fn plain(line: Seq<char>) -> Seq<(Seq<char>, u8, u8, u8, bool)> {
    seq![(line, 0u8, 0u8, 0u8, false)]
}

/// The runs of line `i`: syntect's, else the plain line.
pub open spec fn line_segments(
    lines: Seq<Seq<char>>,
    h: Option<Seq<Option<Seq<(Seq<char>, u8, u8, u8, bool)>>>>,
    i: int,
) -> Seq<(Seq<char>, u8, u8, u8, bool)> {
    match h {
        Some(v) => if v.len() == lines.len() {
            match v[i] {
                Some(s) => s,
                None => plain(lines[i]),
            }
        } else {
            plain(lines[i])
        },
        None => plain(lines[i]),
    }
}

/// The preview: each line numbered from one with its runs; one empty line
/// when there are no lines.
pub open spec fn preview_view(
    lines: Seq<Seq<char>>,
    h: Option<Seq<Option<Seq<(Seq<char>, u8, u8, u8, bool)>>>>,
) -> Seq<(nat, Seq<(Seq<char>, u8, u8, u8, bool)>)> {
    if lines.len() == 0 {
        seq![(1nat, Seq::empty())]
    } else {
        Seq::new(lines.len(), |i: int| ((i + 1) as nat, line_segments(lines, h, i)))
    }
}

fn plain_segments(line: &String) -> (r: Vec<HighlightSegment>)
    ensures
        segs_view(r) == plain(line@),
{
    let mut r: Vec<HighlightSegment> = Vec::new();
    r.push(HighlightSegment { text: line.clone(), r: 0, g: 0, b: 0, bold: false });
    assert(segs_view(r) =~= plain(line@));
    r
}

/// Numbers the preview lines and gives each its runs from `highlighted`
/// (syntect's result for these lines), keeping a line plain where there is
/// none; at least one line.
pub fn highlighted_preview(lines: &Vec<String>, highlighted: Option<Vec<Option<Vec<HighlightSegment>>>>) -> (r: Vec<HighlightedLine>)
    ensures
        r@.map_values(|l: HighlightedLine| line_view(l)) == preview_view(texts_view(lines@), highlight_view(highlighted)),
{
    let ghost lv = texts_view(lines@);
    let ghost hv = highlight_view(highlighted);
    let n = lines.len();
    let mut out: Vec<HighlightedLine> = Vec::new();
    if n == 0 {
        let empty: Vec<HighlightSegment> = Vec::new();
        assert(segs_view(empty) =~= Seq::<(Seq<char>, u8, u8, u8, bool)>::empty());
        out.push(HighlightedLine { line_number: 1, segments: empty });
        assert(lv.len() == 0);
        assert(out@.map_values(|l: HighlightedLine| line_view(l)) =~= preview_view(lv, hv));
        return out;
    }
    let (mut rows, use_rows) = match highlighted {
        Some(v) => {
            let same = v.len() == n;
            (v, same)
        },
        None => (Vec::new(), false),
    };
    let ghost rows0 = rows@;
    assert(use_rows ==> hv == Some(rows_view_seq(rows0)) && rows0.len() == n);
    assert(!use_rows ==> forall|i: int| 0 <= i < n ==> line_segments(lv, hv, i) == plain(lv[i]));
    let mut i: usize = 0;
    while i < n
        invariant
            n == lines@.len(),
            n > 0,
            lv == texts_view(lines@),
            use_rows ==> hv == Some(rows_view_seq(rows0)) && rows0.len() == n,
            use_rows ==> rows@ == rows0.skip(i as int),
            !use_rows ==> forall|k: int| 0 <= k < n ==> line_segments(lv, hv, k) == plain(lv[k]),
            i <= n,
            out@.len() == i,
            forall|k: int| 0 <= k < i ==> #[trigger] line_view(out@[k]) == ((k + 1) as nat, line_segments(lv, hv, k)),
        decreases n - i,
    {
        let segs = if use_rows {
            assert(rows@[0] == rows0[i as int]);
            let item = rows.remove(0);
            assert(rows@ =~= rows0.skip(i + 1));
            match item {
                Some(s) => s,
                None => plain_segments(&lines[i]),
            }
        } else {
            plain_segments(&lines[i])
        };
        proof {
            if use_rows {
                assert(rows_view_seq(rows0)[i as int] == match rows0[i as int] {
                    Some(s) => Some(segs_view(s)),
                    None => None::<Seq<(Seq<char>, u8, u8, u8, bool)>>,
                });
            }
        }
        assert(segs_view(segs) == line_segments(lv, hv, i as int));
        out.push(HighlightedLine { line_number: i + 1, segments: segs });
        i = i + 1;
    }
    assert(out@.map_values(|l: HighlightedLine| line_view(l)) =~= preview_view(lv, hv));
    out
}

pub open spec fn rows_view_seq(v: Seq<Option<Vec<HighlightSegment>>>) -> Seq<Option<Seq<(Seq<char>, u8, u8, u8, bool)>>> {
    v.map_values(|o: Option<Vec<HighlightSegment>>| match o {
        Some(s) => Some(segs_view(s)),
        None => None,
    })
}

/// The preview of a file's lines highlighted by syntect: the syntax is the one
/// syntect finds for `path` (plain text when none), the theme the preferred
/// one of its default set (else the first), and the preview is
/// `highlighted_preview` of syntect's result for them.
pub fn highlight_file(path: &str, lines: &Vec<String>) -> (r: Vec<HighlightedLine>)
    ensures
        exists|h: Option<Seq<Option<Seq<(Seq<char>, u8, u8, u8, bool)>>>>| {
            &&& (h is None || exists|syntax: Seq<char>, theme: Seq<char>|
                #[trigger] syntect_highlight(syntax, theme, texts_view(lines@)) == h)
            &&& r@.map_values(|l: HighlightedLine| line_view(l)) == #[trigger] preview_view(texts_view(lines@), h)
        },
{
    let syntax = match syntax_for_file(path) {
        Some(name) => name,
        None => to_owned("Plain Text"),
    };
    let names = default_theme_names();
    let highlighted = match choose_theme(&names) {
        Some(theme) => highlight_lines_with(syntax.as_str(), theme.as_str(), lines),
        None => None,
    };
    let ghost h = highlight_view(highlighted);
    let r = highlighted_preview(lines, highlighted);
    assert(r@.map_values(|l: HighlightedLine| line_view(l)) == preview_view(texts_view(lines@), h));
    r
}

} // verus!
