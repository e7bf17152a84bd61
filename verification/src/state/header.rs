//! The session header's task title, taken from the first user message.

use vstd::prelude::*;
use crate::strs::{utf8_len, char_utf8_width, lemma_utf8_len_take_step, lemma_utf8_len_take_mono, chars_of, string_from_chars};
use crate::text::{lines_of, is_ws, is_whitespace_char, find_char, strip_cr, lemma_find_char_bound};
use vstd::utf8::encode_scalar;

verus! {

/// The first line of a message (`str::lines().next()`), or the message itself
/// when it has none.
pub open spec fn first_line(m: Seq<char>) -> Seq<char> {
    let ls = lines_of(m);
    if ls.len() > 0 { ls[0] } else { m }
}

/// Leading whitespace chars.
pub open spec fn leading_ws(s: Seq<char>) -> nat
    decreases s.len(),
{
    if s.len() > 0 && is_ws(s[0]) { 1 + leading_ws(s.drop_first()) } else { 0 }
}

/// Trailing whitespace chars.
pub open spec fn trailing_ws(s: Seq<char>) -> nat
    decreases s.len(),
{
    if s.len() > 0 && is_ws(s.last()) { 1 + trailing_ws(s.drop_last()) } else { 0 }
}

/// `str::trim`: whitespace removed from both ends.
pub open spec fn trimmed(s: Seq<char>) -> Seq<char> {
    let t = s.skip(leading_ws(s) as int);
    t.take(t.len() - trailing_ws(t))
}

/// `k` chars fit in `n` bytes and one more would not.
pub open spec fn longest_fit(s: Seq<char>, n: nat, k: nat) -> bool {
    k <= s.len() && utf8_len(s.take(k as int)) <= n && (k == s.len() || utf8_len(s.take(k as int + 1)) > n)
}

/// The longest prefix (in chars) whose UTF-8 encoding fits in `n` bytes.
pub open spec fn prefix_within(s: Seq<char>, n: nat) -> nat {
    choose|k: nat| #[trigger] longest_fit(s, n, k)
}

/// Index of the last space before position `k`, if any.
pub open spec fn last_space_before(s: Seq<char>, k: int) -> int
    decreases k,
{
    if k <= 0 { -1 } else if s[k - 1] == ' ' { k - 1 } else { last_space_before(s, k - 1) }
}

/// Byte offsets 50 and 47 of a long first line must fall between chars:
/// the title is cut there (at 50 only when it is cut at a space instead).
pub open spec fn title_cut_ok(f: Seq<char>) -> bool {
    utf8_len(f) > 50 ==> {
        let k50 = prefix_within(f, 50);
        let j = last_space_before(f, k50 as int);
        &&& utf8_len(f.take(k50 as int)) == 50
        &&& (j >= 0 && utf8_len(f.take(j)) > 30) || utf8_len(f.take(prefix_within(f, 47) as int)) == 47
    }
}

/// The title for a first message: its first line trimmed; "New Session" when
/// that is empty; cut to 50 bytes when longer, at the last space past byte 30
/// when there is one, else at byte 47, with "..." appended.
pub open spec fn task_title(m: Seq<char>) -> Seq<char> {
    let f = trimmed(first_line(m));
    if f.len() == 0 {
        "New Session"@
    } else if utf8_len(f) <= 50 {
        f
    } else {
        let k50 = prefix_within(f, 50);
        let j = last_space_before(f, k50 as int);
        if j >= 0 && utf8_len(f.take(j)) > 30 {
            f.take(j) + "..."@
        } else {
            f.take(prefix_within(f, 47) as int) + "..."@
        }
    }
}

/// The message's first line (the whole message when it has no line).
fn first_line_exec(m: &Vec<char>) -> (r: Vec<char>)
    ensures
        r@ == first_line(m@),
{
    if m.len() == 0 {
        assert(lines_of(m@).len() == 0);
        return Vec::new();
    }
    let mut k: usize = 0;
    while k < m.len() && m[k] != '\n'
        invariant
            k <= m@.len(),
            forall|j: int| 0 <= j < k ==> m@[j] != '\n',
        decreases m@.len() - k,
    {
        k = k + 1;
    }
    proof {
        lemma_find_char_bound(m@, '\n');
        assert(find_char(m@, '\n') == k) by {
            if find_char(m@, '\n') < k {
                assert(m@[find_char(m@, '\n') as int] == '\n');
            }
            if find_char(m@, '\n') > k {
                assert(m@[k as int] == '\n');
            }
        }
    }
    if k == m.len() {
        assert(lines_of(m@)[0] == m@);
        return crate::text::subvec(m, 0, k);
    }
    let mut end = k;
    if end > 0 && m[end - 1] == '\r' {
        end = end - 1;
    }
    let r = crate::text::subvec(m, 0, end);
    assert(r@ =~= strip_cr(m@.take(k as int)));
    assert(lines_of(m@)[0] == strip_cr(m@.take(k as int)));
    r
}

proof fn lemma_leading_ws(s: Seq<char>, i: int)
    requires
        0 <= i <= s.len(),
        forall|j: int| 0 <= j < i ==> is_ws(#[trigger] s[j]),
        i == s.len() || !is_ws(s[i]),
    ensures
        leading_ws(s) == i,
    decreases i,
{
    if i > 0 {
        assert forall|j: int| 0 <= j < i - 1 implies is_ws(#[trigger] s.drop_first()[j]) by {
            assert(s.drop_first()[j] == s[j + 1]);
        }
        lemma_leading_ws(s.drop_first(), i - 1);
    }
}

proof fn lemma_trailing_ws(s: Seq<char>, i: int)
    requires
        0 <= i <= s.len(),
        forall|j: int| i <= j < s.len() ==> is_ws(#[trigger] s[j]),
        i == 0 || !is_ws(s[i - 1]),
    ensures
        trailing_ws(s) == s.len() - i,
    decreases s.len() - i,
{
    if i < s.len() {
        assert forall|j: int| i <= j < s.drop_last().len() implies is_ws(#[trigger] s.drop_last()[j]) by {
            assert(s.drop_last()[j] == s[j]);
        }
        lemma_trailing_ws(s.drop_last(), i);
    }
}

/// Whitespace removed from both ends.
fn trim_exec(s: &Vec<char>) -> (r: Vec<char>)
    ensures
        r@ == trimmed(s@),
{
    let n = s.len();
    let mut a: usize = 0;
    while a < n && is_whitespace_char(s[a])
        invariant
            n == s@.len(),
            a <= n,
            forall|j: int| 0 <= j < a ==> is_ws(#[trigger] s@[j]),
        decreases n - a,
    {
        a = a + 1;
    }
    proof {
        lemma_leading_ws(s@, a as int);
    }
    let ghost t = s@.skip(a as int);
    let mut b: usize = n;
    while b > a && is_whitespace_char(s[b - 1])
        invariant
            n == s@.len(),
            a <= b <= n,
            t == s@.skip(a as int),
            forall|j: int| b <= j < n ==> is_ws(#[trigger] s@[j]),
        decreases b - a,
    {
        b = b - 1;
    }
    proof {
        assert forall|j: int| b - a <= j < t.len() implies is_ws(#[trigger] t[j]) by {
            assert(t[j] == s@[j + a]);
        }
        if b > a {
            assert(t[b - a - 1] == s@[b - 1]);
        }
        lemma_trailing_ws(t, b - a);
    }
    let r = crate::text::subvec(s, a, b);
    assert(r@ =~= t.take(t.len() - trailing_ws(t)));
    r
}

/// The prefix length that fits in `n` bytes, found by walking char widths.
fn prefix_within_exec(s: &Vec<char>, n: usize) -> (k: usize)
    requires
        n <= 64,
    ensures
        k == prefix_within(s@, n as nat),
        longest_fit(s@, n as nat, k as nat),
        k <= s@.len(),
        utf8_len(s@.take(k as int)) <= n,
{
    let mut k: usize = 0;
    let mut used: usize = 0;
    assert(s@.take(0) =~= Seq::<char>::empty());
    while k < s.len() && used + char_utf8_width(s[k]) <= n
        invariant
            n <= 64,
            k <= s@.len(),
            used == utf8_len(s@.take(k as int)),
            used <= n,
        decreases s@.len() - k,
    {
        proof {
            lemma_utf8_len_take_step(s@, k as int);
        }
        used = used + char_utf8_width(s[k]);
        k = k + 1;
    }
    proof {
        if k < s@.len() {
            lemma_utf8_len_take_step(s@, k as int);
        }
        assert(longest_fit(s@, n as nat, k as nat));
        let w = prefix_within(s@, n as nat);
        if w < k {
            lemma_utf8_len_take_mono(s@, w as int + 1, k as int);
        } else if w > k {
            lemma_utf8_len_take_mono(s@, k as int + 1, w as int);
        }
    }
    k
}

/// Bytes of a char prefix.
fn prefix_bytes(s: &Vec<char>, k: usize) -> (b: usize)
    requires
        k <= s@.len(),
        utf8_len(s@.take(k as int)) <= usize::MAX,
    ensures
        b == utf8_len(s@.take(k as int)),
{
    let mut i: usize = 0;
    let mut b: usize = 0;
    assert(s@.take(0) =~= Seq::<char>::empty());
    while i < k
        invariant
            k <= s@.len(),
            i <= k,
            b == utf8_len(s@.take(i as int)),
            utf8_len(s@.take(k as int)) <= usize::MAX,
        decreases k - i,
    {
        proof {
            lemma_utf8_len_take_step(s@, i as int);
            lemma_utf8_len_take_mono(s@, i + 1, k as int);
        }
        b = b + char_utf8_width(s[i]);
        i = i + 1;
    }
    b
}

/// Derive a task title from the first user message: first line, trimmed,
/// cut to about 50 bytes at a word boundary.
pub fn derive_task_title(message: &str) -> (title: String)
    requires
        title_cut_ok(trimmed(first_line(message@))),
    ensures
        title@ == task_title(message@),
{
    let chars = chars_of(message);
    let line = first_line_exec(&chars);
    let f = trim_exec(&line);
    if f.len() == 0 {
        return crate::strs::to_owned("New Session");
    }
    let k50 = prefix_within_exec(&f, 50);
    if k50 == f.len() {
        assert(f@.take(f@.len() as int) =~= f@);
        return string_from_chars(f.as_slice());
    }
    proof {
        lemma_utf8_len_take_step(f@, k50 as int);
        lemma_utf8_len_take_mono(f@, k50 + 1, f@.len() as int);
        assert(f@.take(f@.len() as int) =~= f@);
    }
    // last space before the cut
    let mut j: usize = k50;
    while j > 0 && f[j - 1] != ' '
        invariant
            j <= k50,
            k50 <= f@.len(),
            last_space_before(f@, k50 as int) == last_space_before(f@, j as int),
        decreases j,
    {
        j = j - 1;
    }
    proof {
        if j > 0 {
            lemma_utf8_len_take_mono(f@, j - 1, k50 as int);
        }
    }
    assert(last_space_before(f@, k50 as int) == if j > 0 { j - 1 } else { -1 });
    let mut out: Vec<char>;
    if j > 0 && prefix_bytes(&f, j - 1) > 30 {
        assert(last_space_before(f@, k50 as int) == j - 1);
        out = crate::text::subvec(&f, 0, j - 1);
        assert(out@ =~= f@.take(j - 1));
    } else {
        let k47 = prefix_within_exec(&f, 47);
        out = crate::text::subvec(&f, 0, k47);
        assert(out@ =~= f@.take(k47 as int));
    }
    let ghost cut = out@;
    out.push('.');
    out.push('.');
    out.push('.');
    proof {
        reveal_strlit("...");
        assert(out@ =~= cut + "..."@);
    }
    assert(out@ == task_title(message@));
    string_from_chars(out.as_slice())
}

/// Whether `derive_task_title` can cut `message`'s first line where it needs
/// to (slicing a `str` inside a char panics).
pub fn title_cut_is_valid(message: &str) -> (r: bool)
    ensures
        r == title_cut_ok(trimmed(first_line(message@))),
{
    let chars = chars_of(message);
    let line = first_line_exec(&chars);
    let f = trim_exec(&line);
    let k50 = prefix_within_exec(&f, 50);
    if k50 == f.len() {
        assert(f@.take(f@.len() as int) =~= f@);
        return true;
    }
    proof {
        lemma_utf8_len_take_step(f@, k50 as int);
        lemma_utf8_len_take_mono(f@, k50 + 1, f@.len() as int);
        assert(f@.take(f@.len() as int) =~= f@);
    }
    if prefix_bytes(&f, k50) != 50 {
        return false;
    }
    let mut j: usize = k50;
    while j > 0 && f[j - 1] != ' '
        invariant
            j <= k50,
            k50 <= f@.len(),
            last_space_before(f@, k50 as int) == last_space_before(f@, j as int),
        decreases j,
    {
        j = j - 1;
    }
    proof {
        if j > 0 {
            lemma_utf8_len_take_mono(f@, j - 1, k50 as int);
        }
    }
    assert(last_space_before(f@, k50 as int) == if j > 0 { j - 1 } else { -1 });
    if j > 0 && prefix_bytes(&f, j - 1) > 30 {
        return true;
    }
    let k47 = prefix_within_exec(&f, 47);
    prefix_bytes(&f, k47) == 47
}

} // verus!
