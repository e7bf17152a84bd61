//! What is shown or sent of a file's text: the preview keeps its first lines,
//! and a file handed to a prompt is cut to a byte budget.

use vstd::prelude::*;
use vstd::utf8::encode_scalar;
use crate::strs::{chars_of, string_from_chars, char_utf8_width, utf8_len, lemma_utf8_len_take_step};
use crate::text::{lines, lines_of};

verus! {

/// Lines of a file the preview shows at most.
pub const MAX_FILE_LINES: usize = 2000;

/// Bytes of a file that go into a prompt at most.
pub const MAX_PROMPT_FILE_BYTES: usize = 16384;

/// The lines the preview shows: the file's lines (as `str::lines` splits
/// them), at most `MAX_FILE_LINES` of them.
pub open spec fn preview_text(content: Seq<char>) -> Seq<Seq<char>> {
    let ls = lines_of(content);
    if ls.len() <= MAX_FILE_LINES { ls } else { ls.take(MAX_FILE_LINES as int) }
}

/// The first lines of `content`, one string per line, at most `MAX_FILE_LINES`.
pub fn preview_lines(content: &str) -> (out: Vec<String>)
    ensures
        out@.map_values(|s: String| s@) == preview_text(content@),
{
    let chars = chars_of(content);
    let ls = lines(&chars);
    let ghost lv = ls@.map_values(|p: Vec<char>| p@);
    let n = if ls.len() <= MAX_FILE_LINES { ls.len() } else { MAX_FILE_LINES };
    let mut out: Vec<String> = Vec::new();
    let mut i: usize = 0;
    while i < n
        invariant
            lv == ls@.map_values(|p: Vec<char>| p@),
            lv == lines_of(content@),
            n <= ls@.len(),
            i <= n,
            out@.map_values(|s: String| s@) == lv.take(i as int),
        decreases n - i,
    {
        let s = string_from_chars(ls[i].as_slice());
        let ghost before = out@;
        out.push(s);
        assert(out@.map_values(|s: String| s@) =~= before.map_values(|s: String| s@).push(s@));
        assert(lv.take(i + 1) =~= lv.take(i as int).push(lv[i as int]));
        i = i + 1;
    }
    assert(lv.take(n as int) =~= preview_text(content@));
    out
}

/// Whether a cut after `budget` bytes falls on a char boundary of `s` or
/// past its end (cutting a `String` inside a char panics).
pub open spec fn cut_ok(s: Seq<char>, budget: nat) -> bool {
    utf8_len(s) <= budget || exists|k: int| 0 <= k <= s.len() && #[trigger] utf8_len(s.take(k)) == budget
}

/// `r` is `s` cut to `budget` bytes: all of `s` when it fits, else its prefix
/// of exactly `budget` bytes.
pub open spec fn cut_text(s: Seq<char>, budget: nat, r: Seq<char>) -> bool {
    if utf8_len(s) <= budget {
        r == s
    } else {
        exists|k: int| 0 <= k <= s.len() && r == s.take(k) && #[trigger] utf8_len(s.take(k)) == budget
    }
}

/// `s` cut after `budget` bytes, where that cut is possible (`cut_ok`).
pub open spec fn cut_of(s: Seq<char>, budget: nat) -> Seq<char> {
    if utf8_len(s) <= budget {
        s
    } else {
        s.take(choose|k: int| 0 <= k <= s.len() && #[trigger] utf8_len(s.take(k)) == budget)
    }
}

/// Every char takes at least one byte, so two prefixes of the same byte
/// length are the same prefix.
pub proof fn lemma_cut_unique(s: Seq<char>, a: int, b: int)
    requires
        0 <= a <= s.len(),
        0 <= b <= s.len(),
        utf8_len(s.take(a)) == utf8_len(s.take(b)),
    ensures
        a == b,
{
    if a != b {
        let (lo, hi) = if a < b { (a, b) } else { (b, a) };
        lemma_utf8_len_take_step(s, lo);
        vstd::utf8::char_is_scalar(s[lo]);
        assert(encode_scalar(s[lo] as u32).len() >= 1);
        crate::strs::lemma_utf8_len_take_mono(s, lo + 1, hi);
    }
}

/// Whether the prompt's byte budget can cut `s`.
pub open spec fn prompt_cut_ok(s: Seq<char>) -> bool {
    cut_ok(s, MAX_PROMPT_FILE_BYTES as nat)
}

/// The text of a file as a prompt gets it: the whole text when it fits the
/// byte budget, else its prefix of exactly `MAX_PROMPT_FILE_BYTES` bytes.
pub open spec fn prompt_text(s: Seq<char>, r: Seq<char>) -> bool {
    cut_text(s, MAX_PROMPT_FILE_BYTES as nat, r)
}

/// Chars of `s` whose bytes fit `budget`, and those bytes: the longest
/// prefix within the budget.
fn fitting_prefix(chars: &Vec<char>, budget: usize) -> (r: (usize, usize))
    ensures
        r.0 <= chars@.len(),
        r.1 == utf8_len(chars@.take(r.0 as int)),
        r.1 <= budget,
        r.0 < chars@.len() ==> r.1 + encode_scalar(chars@[r.0 as int] as u32).len() > budget,
        forall|j: int| 0 <= j <= r.0 ==> #[trigger] utf8_len(chars@.take(j)) + (r.0 - j) <= r.1,
{
    let n = chars.len();
    let mut i: usize = 0;
    let mut total: usize = 0;
    assert(chars@.take(0) =~= Seq::<char>::empty());
    while i < n
        invariant_except_break
            i <= n,
            n == chars@.len(),
            total == utf8_len(chars@.take(i as int)),
            total <= budget,
            forall|j: int| 0 <= j <= i ==> #[trigger] utf8_len(chars@.take(j)) + (i - j) <= total,
        ensures
            i <= n,
            total == utf8_len(chars@.take(i as int)),
            total <= budget,
            i < n ==> total + encode_scalar(chars@[i as int] as u32).len() > budget,
            forall|j: int| 0 <= j <= i ==> #[trigger] utf8_len(chars@.take(j)) + (i - j) <= total,
        decreases n - i,
    {
        let w = char_utf8_width(chars[i]);
        if w > budget - total {
            break;
        }
        proof {
            lemma_utf8_len_take_step(chars@, i as int);
        }
        total = total + w;
        i = i + 1;
    }
    (i, total)
}

/// Whether `byte_prefix` can cut `content` after `budget` bytes (the cut is
/// past its end or on one of its char boundaries).
pub fn byte_cut_is_valid(content: &str, budget: usize) -> (r: bool)
    ensures
        r == cut_ok(content@, budget as nat),
{
    let chars = chars_of(content);
    let (k, total) = fitting_prefix(&chars, budget);
    if k == chars.len() {
        assert(chars@.take(k as int) =~= chars@);
        true
    } else {
        proof {
            lemma_utf8_len_take_step(chars@, k as int);
            if total < budget {
                assert forall|j: int| 0 <= j <= chars@.len() implies #[trigger] utf8_len(chars@.take(j)) != budget by {
                    if j > k {
                        crate::strs::lemma_utf8_len_take_mono(chars@, k + 1, j);
                    }
                }
                crate::strs::lemma_utf8_len_take_mono(chars@, k + 1, chars@.len() as int);
                assert(chars@.take(chars@.len() as int) =~= chars@);
            } else {
                assert(utf8_len(chars@.take(k as int)) == budget);
            }
        }
        total == budget
    }
}

/// `content` cut after `budget` bytes (what `String::truncate` keeps).
pub fn byte_prefix(content: &str, budget: usize) -> (r: String)
    requires
        cut_ok(content@, budget as nat),
    ensures
        cut_text(content@, budget as nat, r@),
        r@ == cut_of(content@, budget as nat),
{
    let chars = chars_of(content);
    let (k, total) = fitting_prefix(&chars, budget);
    if k == chars.len() {
        assert(chars@.take(k as int) =~= chars@);
        return crate::strs::to_owned(content);
    }
    proof {
        lemma_utf8_len_take_step(chars@, k as int);
        crate::strs::lemma_utf8_len_take_mono(chars@, k + 1, chars@.len() as int);
        assert(chars@.take(chars@.len() as int) =~= chars@);
        let kk = choose|kk: int| 0 <= kk <= chars@.len() && #[trigger] utf8_len(chars@.take(kk)) == budget;
        if kk > k {
            crate::strs::lemma_utf8_len_take_mono(chars@, k + 1, kk);
        }
        assert(utf8_len(chars@.take(kk)) + (k - kk) <= total);
        assert(kk == k);
        let kc = choose|kc: int| 0 <= kc <= chars@.len() && #[trigger] utf8_len(chars@.take(kc)) == budget;
        lemma_cut_unique(chars@, kc, k as int);
    }
    let prefix = crate::text::subvec(&chars, 0, k);
    assert(prefix@ =~= chars@.take(k as int));
    string_from_chars(prefix.as_slice())
}

/// Whether `prompt_content` can cut `content` (the budget is past its end
/// or on one of its char boundaries).
pub fn prompt_cut_is_valid(content: &str) -> (r: bool)
    ensures
        r == prompt_cut_ok(content@),
{
    byte_cut_is_valid(content, MAX_PROMPT_FILE_BYTES)
}

/// A file's text cut to the prompt's byte budget.
pub fn prompt_content(content: &str) -> (r: String)
    requires
        prompt_cut_ok(content@),
    ensures
        prompt_text(content@, r@),
{
    byte_prefix(content, MAX_PROMPT_FILE_BYTES)
}

} // verus!
