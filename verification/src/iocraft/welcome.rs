//! Welcome screen text: the logo, the prompt rows and the key hints.

use vstd::prelude::*;
use vstd::utf8::{encode_utf8, is_char_boundary};
use crate::text::{split_on, split_chars};
use crate::strs::{chars_of, string_from_chars, bytes_with_insert, to_owned};
use crate::iocraft::chat::{cursor_at, input_with_cursor};
use crate::iocraft::hint_bar::{HintToken, tokens_from, tokens_view};

verus! {

pub const ASCII_LOGO: &'static str = "\n▗▄▄▄▖▗▖ ▗▖▗▖ ▗▖▗▖  ▗▖▗▄▄▄ ▗▄▄▄▖▗▄▄▖ ▗▖ ▗▖ ▗▄▄▖\n  █  ▐▌ ▐▌▐▌ ▐▌▐▛▚▖▐▌▐▌  █▐▌   ▐▌ ▐▌▐▌ ▐▌▐▌\n  █  ▐▛▀▜▌▐▌ ▐▌▐▌ ▝▜▌▐▌  █▐▛▀▀▘▐▛▀▚▖▐▌ ▐▌ ▝▀▚▖\n  █  ▐▌ ▐▌▝▚▄▞▘▐▌  ▐▌▐▙▄▄▀▐▙▄▄▖▐▌ ▐▌▝▚▄▞▘▗▄▄▞▘\n";
pub const PROMPT_PREFIX: &'static str = "❯ ";
pub const CONTINUATION_PREFIX: &'static str = "  ";
pub const WELCOME_GREETING: &'static str = "Thunderus - What can I help you build?";

#[derive(Debug, Clone, Copy, PartialEq, Eq)]
pub enum RenderedPrefixColor {
    Prompt,
    Continuation,
}

/// One row of the prompt: its prefix and text.
#[derive(Debug, Clone)]
pub struct RenderedInputLine {
    pub prefix: &'static str,
    pub prefix_color: RenderedPrefixColor,
    pub text: String,
}

/// The chars of the input with the block cursor inserted (UTF-8 decodes
/// uniquely, so these are determined by the bytes).
pub open spec fn cursor_chars(input: Seq<char>, cursor_position: nat) -> Seq<char> {
    choose|r: Seq<char>|
        encode_utf8(r) == bytes_with_insert(encode_utf8(input), cursor_at(input, cursor_position), '\u{2588}')
}

/// The prompt rows: the input (with its cursor) split at newlines, the first
/// row behind the prompt prefix and the others behind the continuation prefix.
pub fn rendered_input_lines(input: &str, cursor_position: usize) -> (ls: Vec<RenderedInputLine>)
    requires
        is_char_boundary(encode_utf8(input@), cursor_at(input@, cursor_position as nat)),
    ensures
        ls@.len() == split_on(cursor_chars(input@, cursor_position as nat), '\n').len(),
        forall|i: int| 0 <= i < ls@.len() ==> {
            &&& (#[trigger] ls@[i]).text@ == split_on(cursor_chars(input@, cursor_position as nat), '\n')[i]
            &&& ls@[i].prefix == if i == 0 { PROMPT_PREFIX } else { CONTINUATION_PREFIX }
            &&& ls@[i].prefix_color == if i == 0 { RenderedPrefixColor::Prompt } else { RenderedPrefixColor::Continuation }
        },
{
    let with_cursor = input_with_cursor(input, cursor_position);
    proof {
        let target = bytes_with_insert(encode_utf8(input@), cursor_at(input@, cursor_position as nat), '\u{2588}');
        let c = cursor_chars(input@, cursor_position as nat);
        assert(encode_utf8(with_cursor@) == target);
        vstd::utf8::encode_utf8_decode_utf8(c);
        vstd::utf8::encode_utf8_decode_utf8(with_cursor@);
        assert(c == with_cursor@);
    }
    let chars = chars_of(with_cursor.as_str());
    let segs = split_chars(&chars, '\n');
    let ghost sv = segs@.map_values(|p: Vec<char>| p@);
    let mut ls: Vec<RenderedInputLine> = Vec::new();
    let mut i: usize = 0;
    while i < segs.len()
        invariant
            i <= segs@.len(),
            sv == segs@.map_values(|p: Vec<char>| p@),
            ls@.len() == i,
            forall|j: int| 0 <= j < i ==> {
                &&& (#[trigger] ls@[j]).text@ == sv[j]
                &&& ls@[j].prefix == if j == 0 { PROMPT_PREFIX } else { CONTINUATION_PREFIX }
                &&& ls@[j].prefix_color == if j == 0 { RenderedPrefixColor::Prompt } else { RenderedPrefixColor::Continuation }
            },
        decreases segs@.len() - i,
    {
        let text = string_from_chars(segs[i].as_slice());
        let line = if i == 0 {
            RenderedInputLine { prefix: PROMPT_PREFIX, prefix_color: RenderedPrefixColor::Prompt, text }
        } else {
            RenderedInputLine { prefix: CONTINUATION_PREFIX, prefix_color: RenderedPrefixColor::Continuation, text }
        };
        ls.push(line);
        i = i + 1;
    }
    ls
}

/// Leading newline chars.
pub open spec fn leading_newlines(s: Seq<char>) -> nat
    decreases s.len(),
{
    if s.len() > 0 && s[0] == '\n' { 1 + leading_newlines(s.drop_first()) } else { 0 }
}

/// Trailing newline chars.
pub open spec fn trailing_newlines(s: Seq<char>) -> nat
    decreases s.len(),
{
    if s.len() > 0 && s.last() == '\n' { 1 + trailing_newlines(s.drop_last()) } else { 0 }
}

/// `str::trim_matches('\n')`.
pub open spec fn trim_newlines(s: Seq<char>) -> Seq<char> {
    let t = s.skip(leading_newlines(s) as int);
    t.take(t.len() - trailing_newlines(t))
}

proof fn lemma_leading_newlines(s: Seq<char>, i: int)
    requires
        0 <= i <= s.len(),
        forall|j: int| 0 <= j < i ==> #[trigger] s[j] == '\n',
        i == s.len() || s[i] != '\n',
    ensures
        leading_newlines(s) == i,
    decreases i,
{
    if i > 0 {
        assert forall|j: int| 0 <= j < i - 1 implies #[trigger] s.drop_first()[j] == '\n' by {
            assert(s.drop_first()[j] == s[j + 1]);
        }
        lemma_leading_newlines(s.drop_first(), i - 1);
    }
}

proof fn lemma_trailing_newlines(s: Seq<char>, i: int)
    requires
        0 <= i <= s.len(),
        forall|j: int| i <= j < s.len() ==> #[trigger] s[j] == '\n',
        i == 0 || s[i - 1] != '\n',
    ensures
        trailing_newlines(s) == s.len() - i,
    decreases s.len() - i,
{
    if i < s.len() {
        assert forall|j: int| i <= j < s.drop_last().len() implies #[trigger] s.drop_last()[j] == '\n' by {
            assert(s.drop_last()[j] == s[j]);
        }
        lemma_trailing_newlines(s.drop_last(), i);
    }
}

/// The logo without the blank lines around it.
pub fn logo_text() -> (r: String)
    ensures
        r@ == trim_newlines(ASCII_LOGO@),
{
    let s = chars_of(ASCII_LOGO);
    let n = s.len();
    let mut a: usize = 0;
    while a < n && s[a] == '\n'
        invariant
            n == s@.len(),
            a <= n,
            forall|j: int| 0 <= j < a ==> #[trigger] s@[j] == '\n',
        decreases n - a,
    {
        a = a + 1;
    }
    proof {
        lemma_leading_newlines(s@, a as int);
    }
    let ghost t = s@.skip(a as int);
    let mut b: usize = n;
    while b > a && s[b - 1] == '\n'
        invariant
            n == s@.len(),
            a <= b <= n,
            t == s@.skip(a as int),
            forall|j: int| b <= j < n ==> #[trigger] s@[j] == '\n',
        decreases b - a,
    {
        b = b - 1;
    }
    proof {
        assert forall|j: int| b - a <= j < t.len() implies #[trigger] t[j] == '\n' by {
            assert(t[j] == s@[j + a]);
        }
        if b > a {
            assert(t[b - a - 1] == s@[b - 1]);
        }
        lemma_trailing_newlines(t, b - a);
    }
    let r = crate::text::subvec(&s, a, b);
    assert(r@ =~= t.take(t.len() - trailing_newlines(t)));
    string_from_chars(r.as_slice())
}

/// Hints under the welcome prompt.
pub open spec fn welcome_hints() -> Seq<(bool, Seq<char>)> {
    seq![
        (false, "Type "@), (true, "/help"@), (false, " for help, "@), (true, "ctrl+,"@),
        (false, " for settings, "@), (true, "ctrl+n"@), (false, " for new chat, "@), (true, "ctrl+o"@),
        (false, " for files, "@), (true, "Shift+Enter"@), (false, "/"@), (true, "ctrl+j"@),
        (false, " newline, "@), (true, "@"@), (false, " to pin files, "@), (true, "ctrl+d"@),
        (false, " to quit"@),
    ]
}

pub fn default_hint_tokens() -> (ts: Vec<HintToken>)
    ensures
        tokens_view(ts@) == welcome_hints(),
{
    let spec_list = [
        (false, "Type "), (true, "/help"), (false, " for help, "), (true, "ctrl+,"),
        (false, " for settings, "), (true, "ctrl+n"), (false, " for new chat, "), (true, "ctrl+o"),
        (false, " for files, "), (true, "Shift+Enter"), (false, "/"), (true, "ctrl+j"),
        (false, " newline, "), (true, "@"), (false, " to pin files, "), (true, "ctrl+d"),
        (false, " to quit"),
    ];
    let ts = tokens_from(&spec_list);
    assert(tokens_view(ts@) =~= welcome_hints());
    ts
}

/// The suggestions the welcome screen offers: the ones it was given, when
/// there are any, in place of the welcome model's own.
pub fn shown_suggestions(given: Vec<String>, defaults: Vec<String>) -> (r: Vec<String>)
    ensures
        r@ == if given@.len() > 0 { given@ } else { defaults@ },
{
    if given.len() > 0 { given } else { defaults }
}

} // verus!
