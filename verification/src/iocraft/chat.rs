//! Chat screen layout: dimensions, wrapping, transcript windows and hint rows.

use vstd::prelude::*;
use vstd::utf8::{encode_utf8, is_char_boundary};
use crate::text::{split_on, split_chars, subvec, concat_chars};
use crate::strs::{chars_of, string_from_chars, string_insert, byte_len, bytes_with_insert, to_owned};
use crate::theme::Color;
use crate::scroll::min_nat;
use crate::iocraft::theme::Theme;
use crate::iocraft::hint_bar::{HintToken, tokens_from, tokens_view};

verus! {

pub const DEFAULT_VIEWPORT_WIDTH: u16 = 80;
pub const DEFAULT_VIEWPORT_HEIGHT: u16 = 24;
pub const TOKEN_ROW_HEIGHT: u16 = 2;
pub const HINT_ROW_HEIGHT: u16 = 1;

/// Font weight of a rendered line.
#[derive(Debug, Clone, Copy, PartialEq, Eq)]
pub enum Weight {
    Normal,
    Bold,
}

/// One row of text with its colour and weight.
#[derive(Debug, Clone)]
pub struct RenderedLine {
    pub text: String,
    pub color: Color,
    pub weight: Weight,
}

impl RenderedLine {
    pub fn new(text: String, color: Color) -> (l: Self)
        ensures
            l.text == text,
            l.color == color,
            l.weight == Weight::Normal,
    {
        RenderedLine { text, color, weight: Weight::Normal }
    }

    pub fn bold(text: String, color: Color) -> (l: Self)
        ensures
            l.text == text,
            l.color == color,
            l.weight == Weight::Bold,
    {
        RenderedLine { text, color, weight: Weight::Bold }
    }

    /// A single space in the muted colour.
    pub fn blank(theme: Theme) -> (l: Self)
        ensures
            l.text@ == " "@,
            l.color == theme.text_muted,
            l.weight == Weight::Normal,
    {
        Self::new(to_owned(" "), theme.text_muted)
    }

    pub fn clone_line(&self) -> (l: Self)
        ensures
            l.text == self.text,
            l.color == self.color,
            l.weight == self.weight,
    {
        RenderedLine { text: self.text.clone(), color: self.color, weight: self.weight }
    }
}

/// The explicit size if set, else the measured one, else the fallback.
pub fn resolve_dimension(explicit: u16, measured: u16, fallback: u16) -> (d: u16)
    ensures
        d == if explicit > 0 { explicit } else if measured > 0 { measured } else { fallback },
{
    if explicit > 0 {
        explicit
    } else if measured > 0 {
        measured
    } else {
        fallback
    }
}

/// Rows one page-up or page-down moves: a page less one row, at least one.
pub fn page_scroll_amount(transcript_height: u16) -> (n: usize)
    ensures
        n == if transcript_height >= 2 { transcript_height - 1 } else { 1 },
{
    let h = transcript_height.saturating_sub(1);
    if h > 1 { h as usize } else { 1 }
}

/// Transcript rows scrolled back after PageUp: one page further back from
/// `scroll_rows`, but never past the oldest row (`transcript_len` rows shown
/// `transcript_height` at a time).
pub fn scroll_page_up(scroll_rows: usize, transcript_len: usize, transcript_height: u16) -> (r: usize)
    ensures
        r == min_nat((scroll_rows + (if transcript_height >= 2 { transcript_height - 1 } else { 1 })) as nat,
            (if transcript_len > transcript_height { transcript_len - transcript_height } else { 0 }) as nat),
{
    let page = page_scroll_amount(transcript_height);
    let h = transcript_height as usize;
    let max_offset = if transcript_len > h { transcript_len - h } else { 0 };
    let next = scroll_rows.saturating_add(page);
    if next < max_offset { next } else { max_offset }
}

/// Transcript rows scrolled back after PageDown: one page nearer the newest
/// row, stopping at it.
pub fn scroll_page_down(scroll_rows: usize, transcript_height: u16) -> (r: usize)
    ensures
        r == (if scroll_rows >= (if transcript_height >= 2 { transcript_height - 1 } else { 1 }) {
            scroll_rows - (if transcript_height >= 2 { transcript_height - 1 } else { 1 })
        } else {
            0
        }),
{
    scroll_rows.saturating_sub(page_scroll_amount(transcript_height))
}

/// Rows the input box takes: its lines (at least one, kept to 16 bits) plus the border.
pub fn chat_input_height(line_count: usize) -> (h: u16)
    requires
        (if line_count >= 1 { line_count } else { 1 }) % 65536 < 65535,
    ensures
        h == (if line_count >= 1 { line_count } else { 1 }) % 65536 + 1,
{
    let m = if line_count > 1 { line_count } else { 1 };
    let t = (m % 65536) as u16;
    t + 1
}

/// First transcript row shown when `scroll_rows` rows up from the bottom.
pub open spec fn window_start(len: nat, viewport_height: nat, scroll_rows: nat) -> nat {
    let span = if viewport_height + scroll_rows <= usize::MAX { viewport_height + scroll_rows } else { usize::MAX as nat };
    if len >= span { (len - span) as nat } else { 0 }
}

/// The rows visible in a window of `viewport_height` rows, scrolled
/// `scroll_rows` up from the bottom of the transcript.
pub fn visible_transcript_lines(transcript: &[RenderedLine], viewport_height: usize, scroll_rows: usize) -> (v: Vec<RenderedLine>)
    ensures
        ({
            let start = window_start(transcript@.len(), viewport_height as nat, scroll_rows as nat);
            let end = if start + viewport_height <= transcript@.len() { start + viewport_height } else { transcript@.len() as int };
            &&& v@.len() == end - start
            &&& forall|k: int| 0 <= k < v@.len() ==> (#[trigger] v@[k]).text == transcript@[start + k].text
                && v@[k].color == transcript@[start + k].color && v@[k].weight == transcript@[start + k].weight
        }),
{
    let n = transcript.len();
    if n == 0 {
        return Vec::new();
    }
    let span = viewport_height.saturating_add(scroll_rows);
    let start = n.saturating_sub(span);
    let end = if viewport_height <= n - start { start + viewport_height } else { n };
    let mut v: Vec<RenderedLine> = Vec::new();
    let mut i = start;
    while i < end
        invariant
            start <= i <= end,
            end <= n,
            n == transcript@.len(),
            v@.len() == i - start,
            forall|k: int| 0 <= k < v@.len() ==> (#[trigger] v@[k]).text == transcript@[start + k].text
                && v@[k].color == transcript@[start + k].color && v@[k].weight == transcript@[start + k].weight,
        decreases end - i,
    {
        v.push(transcript[i].clone_line());
        i = i + 1;
    }
    v
}

/// `value` cut to `max_chars` chars, the last one replaced by an ellipsis when cut.
pub open spec fn truncated(value: Seq<char>, max_chars: nat) -> Seq<char> {
    if max_chars == 0 {
        Seq::empty()
    } else if value.len() <= max_chars {
        value
    } else {
        value.take(max_chars - 1).push('…')
    }
}

pub fn truncate_text(value: &str, max_chars: usize) -> (r: String)
    ensures
        r@ == truncated(value@, max_chars as nat),
{
    if max_chars == 0 {
        return String::new();
    }
    let chars = chars_of(value);
    if chars.len() <= max_chars {
        return to_owned(value);
    }
    let mut kept = subvec(&chars, 0, max_chars - 1);
    kept.push('…');
    assert(chars@.subrange(0, max_chars - 1) =~= value@.take(max_chars - 1));
    string_from_chars(kept.as_slice())
}

/// `"\r\n"` pairs (left to right) turned into `"\n"`.
pub open spec fn replace_crlf(s: Seq<char>) -> Seq<char>
    decreases s.len(),
{
    if s.len() == 0 {
        s
    } else if s.len() >= 2 && s[0] == '\r' && s[1] == '\n' {
        seq!['\n'] + replace_crlf(s.skip(2))
    } else {
        seq![s[0]] + replace_crlf(s.skip(1))
    }
}

/// Every remaining `'\r'` turned into `'\n'`.
pub open spec fn cr_to_lf(s: Seq<char>) -> Seq<char> {
    s.map_values(|c: char| if c == '\r' { '\n' } else { c })
}

/// A non-empty segment cut into rows of `w` chars (the last may be shorter).
pub open spec fn chunks(seg: Seq<char>, w: nat) -> Seq<Seq<char>>
    decreases seg.len(),
{
    if w == 0 || seg.len() <= w {
        seq![seg]
    } else {
        seq![seg.take(w as int)] + chunks(seg.skip(w as int), w)
    }
}

/// Rows for one segment: an empty segment still takes one (empty) row.
pub open spec fn segment_rows(seg: Seq<char>, w: nat) -> Seq<Seq<char>> {
    if seg.len() == 0 { seq![Seq::<char>::empty()] } else { chunks(seg, w) }
}

pub open spec fn concat_rows(segs: Seq<Seq<char>>, w: nat) -> Seq<Seq<char>>
    decreases segs.len(),
{
    if segs.len() == 0 {
        Seq::empty()
    } else {
        segment_rows(segs[0], w) + concat_rows(segs.drop_first(), w)
    }
}

/// Rows of `content` hard-wrapped at `width` chars: line breaks (`\n`, `\r\n`
/// or a lone `\r`) always start a new row.
pub open spec fn wrapped(content: Seq<char>, width: nat) -> Seq<Seq<char>> {
    if width == 0 {
        seq![Seq::<char>::empty()]
    } else {
        let rows = concat_rows(split_on(cr_to_lf(replace_crlf(content)), '\n'), width);
        if rows.len() == 0 { seq![Seq::<char>::empty()] } else { rows }
    }
}

fn replace_crlf_exec(s: &Vec<char>) -> (r: Vec<char>)
    ensures
        r@ == replace_crlf(s@),
{
    let n = s.len();
    let mut out: Vec<char> = Vec::new();
    let mut i: usize = 0;
    assert(s@.skip(0) =~= s@);
    while i < n
        invariant
            n == s@.len(),
            i <= n,
            out@ + replace_crlf(s@.skip(i as int)) == replace_crlf(s@),
        decreases n - i,
    {
        let ghost rest = s@.skip(i as int);
        let ghost before = out@;
        if i + 1 < n && s[i] == '\r' && s[i + 1] == '\n' {
            assert(rest.skip(2) =~= s@.skip(i + 2));
            out.push('\n');
            i = i + 2;
            assert(out@ + replace_crlf(s@.skip(i as int)) =~= before + replace_crlf(rest));
        } else {
            assert(rest.skip(1) =~= s@.skip(i + 1));
            out.push(s[i]);
            i = i + 1;
            assert(out@ + replace_crlf(s@.skip(i as int)) =~= before + replace_crlf(rest));
        }
    }
    assert(replace_crlf(s@.skip(n as int)) =~= Seq::<char>::empty()) by {
        assert(s@.skip(n as int) =~= Seq::<char>::empty());
    }
    assert(out@ =~= out@ + Seq::<char>::empty());
    out
}

fn cr_to_lf_exec(s: &Vec<char>) -> (r: Vec<char>)
    ensures
        r@ == cr_to_lf(s@),
{
    let mut out: Vec<char> = Vec::new();
    let mut i: usize = 0;
    while i < s.len()
        invariant
            i <= s@.len(),
            out@ == cr_to_lf(s@.take(i as int)),
        decreases s@.len() - i,
    {
        let c = s[i];
        out.push(if c == '\r' { '\n' } else { c });
        i = i + 1;
        assert(out@ =~= cr_to_lf(s@.take(i as int)));
    }
    assert(s@.take(s@.len() as int) =~= s@);
    out
}

/// Rows of one segment.
fn segment_rows_exec(seg: &Vec<char>, w: usize) -> (rows: Vec<Vec<char>>)
    requires
        w > 0,
    ensures
        rows@.map_values(|p: Vec<char>| p@) == segment_rows(seg@, w as nat),
{
    let n = seg.len();
    let mut rows: Vec<Vec<char>> = Vec::new();
    if n == 0 {
        rows.push(Vec::new());
        assert(rows@.map_values(|p: Vec<char>| p@) =~= seq![Seq::<char>::empty()]);
        return rows;
    }
    let mut i: usize = 0;
    assert(seg@.skip(0) =~= seg@);
    while i < n
        invariant
            w > 0,
            n == seg@.len(),
            i < n,
            rows@.map_values(|p: Vec<char>| p@) + chunks(seg@.skip(i as int), w as nat) == chunks(seg@, w as nat),
        decreases n - i,
    {
        let ghost rest = seg@.skip(i as int);
        let ghost before = rows@.map_values(|p: Vec<char>| p@);
        if n - i <= w {
            let piece = subvec(seg, i, n);
            assert(piece@ =~= rest);
            rows.push(piece);
            assert(rows@.map_values(|p: Vec<char>| p@) =~= before.push(piece@));
            assert(chunks(rest, w as nat) == seq![rest]);
            assert(before + seq![rest] =~= before.push(rest));
            return rows;
        }
        let piece = subvec(seg, i, i + w);
        assert(piece@ =~= rest.take(w as int));
        assert(rest.skip(w as int) =~= seg@.skip(i + w));
        rows.push(piece);
        assert(rows@.map_values(|p: Vec<char>| p@) =~= before.push(piece@));
        assert(before.push(piece@) + chunks(seg@.skip(i + w), w as nat) =~= before + (seq![piece@] + chunks(rest.skip(w as int), w as nat)));
        i = i + w;
    }
    rows
}

/// Hard-wraps `content` at `width` chars per row.
pub fn wrap_text(content: &str, width: u16) -> (rows: Vec<String>)
    ensures
        rows@.map_values(|s: String| s@) == wrapped(content@, width as nat),
{
    if width == 0 {
        let mut v: Vec<String> = Vec::new();
        v.push(String::new());
        assert(v@.map_values(|s: String| s@) =~= seq![Seq::<char>::empty()]);
        return v;
    }
    let w = width as usize;
    let chars = chars_of(content);
    let normalized = cr_to_lf_exec(&replace_crlf_exec(&chars));
    let segs = split_chars(&normalized, '\n');
    let ghost sv = segs@.map_values(|p: Vec<char>| p@);
    let mut out: Vec<String> = Vec::new();
    let mut j: usize = 0;
    assert(sv.skip(0) =~= sv);
    assert(Seq::<Seq<char>>::empty() + concat_rows(sv, w as nat) =~= concat_rows(sv, w as nat));
    while j < segs.len()
        invariant
            w > 0,
            w == width,
            sv == segs@.map_values(|p: Vec<char>| p@),
            sv == split_on(cr_to_lf(replace_crlf(content@)), '\n'),
            j <= segs@.len(),
            out@.map_values(|s: String| s@) + concat_rows(sv.skip(j as int), w as nat) == concat_rows(sv, w as nat),
        decreases segs@.len() - j,
    {
        let rows = segment_rows_exec(&segs[j], w);
        let ghost rv = rows@.map_values(|p: Vec<char>| p@);
        assert(sv.skip(j as int).drop_first() =~= sv.skip(j + 1));
        assert(sv.skip(j as int)[0] == sv[j as int]);
        let mut k: usize = 0;
        let ghost base = out@.map_values(|s: String| s@);
        while k < rows.len()
            invariant
                rv == rows@.map_values(|p: Vec<char>| p@),
                k <= rows@.len(),
                out@.map_values(|s: String| s@) == base + rv.take(k as int),
            decreases rows@.len() - k,
        {
            let s = string_from_chars(rows[k].as_slice());
            let ghost before = out@;
            out.push(s);
            assert(out@.map_values(|s: String| s@) =~= before.map_values(|s: String| s@).push(s@));
            assert(rv.take(k + 1) =~= rv.take(k as int).push(rv[k as int]));
            k = k + 1;
        }
        assert(rv.take(rows@.len() as int) =~= rv);
        j = j + 1;
    }
    assert(sv.skip(segs@.len() as int) =~= Seq::<Seq<char>>::empty());
    assert(out@.map_values(|s: String| s@) =~= out@.map_values(|s: String| s@) + Seq::<Seq<char>>::empty());
    if out.len() == 0 {
        out.push(String::new());
        assert(out@.map_values(|s: String| s@) =~= seq![Seq::<char>::empty()]);
    }
    out
}

/// Rows with the wrapping colour and weight.
pub fn wrap_colored_lines(content: &str, width: u16, color: Color, bold: bool) -> (lines: Vec<RenderedLine>)
    ensures
        lines@.map_values(|l: RenderedLine| l.text@) == wrapped(content@, width as nat),
        forall|k: int| 0 <= k < lines@.len() ==> (#[trigger] lines@[k]).color == color
            && lines@[k].weight == if bold { Weight::Bold } else { Weight::Normal },
{
    let rows = wrap_text(content, width);
    let ghost rv = rows@.map_values(|s: String| s@);
    let mut lines: Vec<RenderedLine> = Vec::new();
    let mut i: usize = 0;
    while i < rows.len()
        invariant
            rv == rows@.map_values(|s: String| s@),
            i <= rows@.len(),
            lines@.map_values(|l: RenderedLine| l.text@) == rv.take(i as int),
            forall|k: int| 0 <= k < lines@.len() ==> (#[trigger] lines@[k]).color == color
                && lines@[k].weight == if bold { Weight::Bold } else { Weight::Normal },
        decreases rows@.len() - i,
    {
        let text = rows[i].clone();
        let line = if bold { RenderedLine::bold(text, color) } else { RenderedLine::new(text, color) };
        let ghost before = lines@;
        lines.push(line);
        assert(lines@.map_values(|l: RenderedLine| l.text@) =~= before.map_values(|l: RenderedLine| l.text@).push(line.text@));
        assert(rv.take(i + 1) =~= rv.take(i as int).push(rv[i as int]));
        i = i + 1;
    }
    assert(rv.take(rows@.len() as int) =~= rv);
    lines
}

/// Width left for text after a prefix of `p` chars (counted as a `u16`),
/// never less than one column.
pub open spec fn width_after(width: u16, p: Seq<char>) -> u16 {
    let pw = p.len() as u16;
    if width > pw { (width - pw) as u16 } else { 1 }
}

/// `rows` with `first` before the first row and `rest` before the others.
pub open spec fn prefix_rows(rows: Seq<Seq<char>>, first: Seq<char>, rest: Seq<char>) -> Seq<Seq<char>> {
    Seq::new(rows.len(), |j: int| (if j == 0 { first } else { rest }) + rows[j])
}

/// Rows of the segments of a message: the first segment is wrapped at `fw`
/// and opens with `prefix`; every other row carries `cont`, at width `cw`.
pub open spec fn prefixed_segments(
    segs: Seq<Seq<char>>,
    first_seg: bool,
    prefix: Seq<char>,
    cont: Seq<char>,
    fw: nat,
    cw: nat,
) -> Seq<Seq<char>>
    decreases segs.len(),
{
    if segs.len() == 0 {
        Seq::empty()
    } else {
        let block = if first_seg {
            prefix_rows(wrapped(segs[0], fw), prefix, cont)
        } else {
            prefix_rows(wrapped(segs[0], cw), cont, cont)
        };
        block + prefixed_segments(segs.drop_first(), false, prefix, cont, fw, cw)
    }
}

/// The rows of `content` split at line breaks, each piece wrapped to the
/// width left after its prefix; at least the bare prefix.
pub open spec fn prefixed_texts(prefix: Seq<char>, cont: Seq<char>, content: Seq<char>, width: u16) -> Seq<Seq<char>> {
    let rows = prefixed_segments(split_on(content, '\n'), true, prefix, cont,
        width_after(width, prefix) as nat, width_after(width, cont) as nat);
    if rows.len() == 0 { seq![prefix] } else { rows }
}

/// Lines of a message body: `prefix` opens the first row, `continuation_prefix`
/// every later one, and each segment is wrapped to the width left beside them.
pub fn prefixed_lines(prefix: &str, continuation_prefix: &str, content: &str, width: u16, color: Color) -> (lines: Vec<RenderedLine>)
    ensures
        lines@.map_values(|l: RenderedLine| l.text@) == prefixed_texts(prefix@, continuation_prefix@, content@, width),
        forall|k: int| 0 <= k < lines@.len() ==> (#[trigger] lines@[k]).color == color && lines@[k].weight == Weight::Normal,
{
    let pw = prefix.unicode_len() as u16;
    let cw = continuation_prefix.unicode_len() as u16;
    let first_width: u16 = if width > pw { width - pw } else { 1 };
    let cont_width: u16 = if width > cw { width - cw } else { 1 };
    let ghost fw = first_width as nat;
    let ghost cwn = cont_width as nat;
    let ghost pv = prefix@;
    let ghost cv = continuation_prefix@;
    let chars = chars_of(content);
    let segs = split_chars(&chars, '\n');
    let ghost sv = segs@.map_values(|p: Vec<char>| p@);
    let mut lines: Vec<RenderedLine> = Vec::new();
    let mut j: usize = 0;
    assert(sv.skip(0) =~= sv);
    assert(Seq::<Seq<char>>::empty() + prefixed_segments(sv, true, pv, cv, fw, cwn) =~= prefixed_segments(sv, true, pv, cv, fw, cwn));
    while j < segs.len()
        invariant
            sv == segs@.map_values(|p: Vec<char>| p@),
            sv == split_on(content@, '\n'),
            fw == first_width as nat,
            cwn == cont_width as nat,
            pv == prefix@,
            cv == continuation_prefix@,
            j <= segs@.len(),
            lines@.map_values(|l: RenderedLine| l.text@) + prefixed_segments(sv.skip(j as int), j == 0, pv, cv, fw, cwn)
                == prefixed_segments(sv, true, pv, cv, fw, cwn),
            forall|k: int| 0 <= k < lines@.len() ==> (#[trigger] lines@[k]).color == color && lines@[k].weight == Weight::Normal,
        decreases segs@.len() - j,
    {
        let seg = string_from_chars(segs[j].as_slice());
        let w: u16 = if j == 0 { first_width } else { cont_width };
        let rows = wrap_text(seg.as_str(), w);
        let ghost rv = rows@.map_values(|s: String| s@);
        let ghost first = if j == 0 { pv } else { cv };
        let ghost block = prefix_rows(rv, first, cv);
        assert(sv.skip(j as int).drop_first() =~= sv.skip(j + 1));
        assert(sv.skip(j as int)[0] == sv[j as int]);
        assert(prefixed_segments(sv.skip(j as int), j == 0, pv, cv, fw, cwn)
            == block + prefixed_segments(sv.skip(j + 1), false, pv, cv, fw, cwn));
        let ghost base = lines@.map_values(|l: RenderedLine| l.text@);
        let mut k: usize = 0;
        while k < rows.len()
            invariant
                rv == rows@.map_values(|s: String| s@),
                block == prefix_rows(rv, first, cv),
                first == (if j == 0 { pv } else { cv }),
                pv == prefix@,
                cv == continuation_prefix@,
                k <= rows@.len(),
                lines@.map_values(|l: RenderedLine| l.text@) == base + block.take(k as int),
                forall|i: int| 0 <= i < lines@.len() ==> (#[trigger] lines@[i]).color == color && lines@[i].weight == Weight::Normal,
            decreases rows@.len() - k,
        {
            let head = if j == 0 && k == 0 { prefix } else { continuation_prefix };
            let text = to_owned(head).concat(rows[k].as_str());
            let line = RenderedLine::new(text, color);
            let ghost before = lines@;
            lines.push(line);
            assert(lines@.map_values(|l: RenderedLine| l.text@) =~= before.map_values(|l: RenderedLine| l.text@).push(line.text@));
            assert(block.take(k + 1) =~= block.take(k as int).push(block[k as int]));
            k = k + 1;
        }
        assert(block.take(rows@.len() as int) =~= block);
        assert(lines@.map_values(|l: RenderedLine| l.text@) + prefixed_segments(sv.skip(j + 1), false, pv, cv, fw, cwn)
            =~= base + prefixed_segments(sv.skip(j as int), j == 0, pv, cv, fw, cwn));
        j = j + 1;
    }
    assert(sv.skip(segs@.len() as int) =~= Seq::<Seq<char>>::empty());
    assert(lines@.map_values(|l: RenderedLine| l.text@) =~= lines@.map_values(|l: RenderedLine| l.text@) + Seq::<Seq<char>>::empty());
    if lines.len() == 0 {
        lines.push(RenderedLine::new(to_owned(prefix), color));
        assert(lines@.map_values(|l: RenderedLine| l.text@) =~= seq![prefix@]);
    }
    lines
}

/// Byte offset where the cursor mark goes: the cursor, kept within the text.
pub open spec fn cursor_at(input: Seq<char>, cursor_position: nat) -> int {
    let len = encode_utf8(input).len();
    if cursor_position <= len { cursor_position as int } else { len as int }
}

/// The input with a block cursor (`█`) drawn at byte offset `cursor_position`
/// (or at the end when past it).
pub fn input_with_cursor(input: &str, cursor_position: usize) -> (r: String)
    requires
        is_char_boundary(encode_utf8(input@), cursor_at(input@, cursor_position as nat)),
    ensures
        encode_utf8(r@) == bytes_with_insert(encode_utf8(input@), cursor_at(input@, cursor_position as nat), '\u{2588}'),
{
    let mut output = to_owned(input);
    let len = byte_len(&output);
    let cursor = if cursor_position < len { cursor_position } else { len };
    string_insert(&mut output, cursor, '\u{2588}');
    output
}

/// Hints for the chat input: file-finder keys while it is open, else the editing keys.
pub open spec fn chat_hints(file_finder_active: bool) -> Seq<(bool, Seq<char>)> {
    if file_finder_active {
        seq![
            (false, "Type to filter, "@), (true, "Enter"@), (false, " pin/unpin, "@), (true, "Esc"@),
            (false, " close, "@), (true, "ctrl+k"@), (false, " clear"@),
        ]
    } else {
        seq![
            (false, "Press "@), (true, "Enter"@), (false, " send, "@), (true, "Shift+Enter"@), (false, "/"@),
            (true, "ctrl+j"@), (false, " newline, "@), (true, "@"@), (false, " pin files, "@), (true, "Tab"@),
            (false, " toggle tool, "@), (true, "ctrl+r"@), (false, " reasoning, "@), (true, "PageUp/Down"@),
            (false, " scroll, "@), (true, "ctrl+d"@), (false, " quit"@),
        ]
    }
}

pub fn hint_tokens(file_finder_active: bool) -> (ts: Vec<HintToken>)
    ensures
        tokens_view(ts@) == chat_hints(file_finder_active),
{
    if file_finder_active {
        let spec_list = [
            (false, "Type to filter, "), (true, "Enter"), (false, " pin/unpin, "), (true, "Esc"),
            (false, " close, "), (true, "ctrl+k"), (false, " clear"),
        ];
        let ts = tokens_from(&spec_list);
        assert(tokens_view(ts@) =~= chat_hints(file_finder_active));
        ts
    } else {
        let spec_list = [
            (false, "Press "), (true, "Enter"), (false, " send, "), (true, "Shift+Enter"), (false, "/"),
            (true, "ctrl+j"), (false, " newline, "), (true, "@"), (false, " pin files, "), (true, "Tab"),
            (false, " toggle tool, "), (true, "ctrl+r"), (false, " reasoning, "), (true, "PageUp/Down"),
            (false, " scroll, "), (true, "ctrl+d"), (false, " quit"),
        ];
        let ts = tokens_from(&spec_list);
        assert(tokens_view(ts@) =~= chat_hints(file_finder_active));
        ts
    }
}

} // verus!
