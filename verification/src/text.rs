//! Splitting text into segments and lines, over character sequences.

use vstd::prelude::*;

verus! {

/// Index of the first `c` in `s`, or `s.len()` when there is none.
pub open spec fn find_char(s: Seq<char>, c: char) -> nat
    decreases s.len(),
{
    if s.len() == 0 {
        0
    } else if s[0] == c {
        0
    } else {
        1 + find_char(s.drop_first(), c)
    }
}

/// `s` split at every `sep` (what `str::split(sep)` yields): always at least one
/// piece, and `k` separators give `k + 1` pieces.
pub open spec fn split_on(s: Seq<char>, sep: char) -> Seq<Seq<char>>
    decreases s.len(),
{
    let k = find_char(s, sep);
    if k >= s.len() {
        seq![s]
    } else {
        seq![s.take(k as int)] + split_on(s.skip(k as int + 1), sep)
    }
}

/// Drops one trailing carriage return.
pub open spec fn strip_cr(s: Seq<char>) -> Seq<char> {
    if s.len() > 0 && s.last() == '\r' { s.drop_last() } else { s }
}

/// Lines as `str::lines` yields them: split at `\n`, a `\r` right before a `\n`
/// belongs to the line ending, and a final `\n` does not start an empty line.
pub open spec fn lines_of(s: Seq<char>) -> Seq<Seq<char>>
    decreases s.len(),
{
    if s.len() == 0 {
        seq![]
    } else {
        let k = find_char(s, '\n');
        if k >= s.len() {
            seq![s]
        } else {
            seq![strip_cr(s.take(k as int))] + lines_of(s.skip(k as int + 1))
        }
    }
}

pub proof fn lemma_find_char_bound(s: Seq<char>, c: char)
    ensures
        find_char(s, c) <= s.len(),
        find_char(s, c) < s.len() ==> s[find_char(s, c) as int] == c,
        forall|j: int| 0 <= j < find_char(s, c) ==> s[j] != c,
    decreases s.len(),
{
    if s.len() > 0 && s[0] != c {
        lemma_find_char_bound(s.drop_first(), c);
        assert forall|j: int| 0 <= j < find_char(s, c) implies s[j] != c by {
            if j > 0 {
                assert(s[j] == s.drop_first()[j - 1]);
            }
        }
    }
}

/// A prefix without `c` shifts where `c` is first found.
pub proof fn lemma_find_char_append(cur: Seq<char>, rest: Seq<char>, c: char)
    requires
        !cur.contains(c),
    ensures
        find_char(cur + rest, c) == cur.len() + find_char(rest, c),
    decreases cur.len(),
{
    if cur.len() > 0 {
        assert((cur + rest).drop_first() =~= cur.drop_first() + rest);
        assert(cur[0] != c) by {
            assert(cur.contains(cur[0]));
        }
        assert(!cur.drop_first().contains(c)) by {
            if cur.drop_first().contains(c) {
                let j = choose|j: int| 0 <= j < cur.drop_first().len() && cur.drop_first()[j] == c;
                assert(cur[j + 1] == c);
            }
        }
        lemma_find_char_append(cur.drop_first(), rest, c);
    } else {
        assert(cur + rest =~= rest);
    }
}

/// Splits `s` at every `sep`.
pub fn split_chars(s: &Vec<char>, sep: char) -> (parts: Vec<Vec<char>>)
    ensures
        parts@.map_values(|p: Vec<char>| p@) == split_on(s@, sep),
{
    let n = s.len();
    let mut parts: Vec<Vec<char>> = Vec::new();
    let mut cur: Vec<char> = Vec::new();
    let mut i: usize = 0;
    proof {
        assert(cur@ + s@.skip(0) =~= s@);
        assert(parts@.map_values(|p: Vec<char>| p@) + split_on(s@, sep) =~= split_on(s@, sep));
    }
    while i < n
        invariant
            n == s@.len(),
            i <= n,
            !cur@.contains(sep),
            parts@.map_values(|p: Vec<char>| p@) + split_on(cur@ + s@.skip(i as int), sep) == split_on(s@, sep),
        decreases n - i,
    {
        let ch = s[i];
        let ghost rest = s@.skip(i as int);
        assert(rest =~= seq![ch] + s@.skip(i + 1));
        if ch == sep {
            proof {
                lemma_find_char_append(cur@, rest, sep);
                assert(find_char(rest, sep) == 0);
                let whole = cur@ + rest;
                assert(whole.take(cur@.len() as int) =~= cur@);
                assert(whole.skip(cur@.len() as int + 1) =~= s@.skip(i + 1));
                assert(split_on(whole, sep) == seq![cur@] + split_on(s@.skip(i + 1), sep));
                assert(Seq::<char>::empty() + s@.skip(i + 1) =~= s@.skip(i + 1));
            }
            let ghost old_parts = parts@;
            let done = cur;
            parts.push(done);
            cur = Vec::new();
            proof {
                assert(parts@.map_values(|p: Vec<char>| p@) =~= old_parts.map_values(|p: Vec<char>| p@).push(done@));
            }
        } else {
            let ghost old_cur = cur@;
            cur.push(ch);
            assert(cur@ + s@.skip(i + 1) =~= old_cur + rest);
            assert(!cur@.contains(sep)) by {
                if cur@.contains(sep) {
                    let j = choose|j: int| 0 <= j < cur@.len() && cur@[j] == sep;
                    if j < old_cur.len() {
                        assert(old_cur[j] == sep);
                    }
                }
            }
        }
        i = i + 1;
    }
    proof {
        assert(s@.skip(n as int) =~= Seq::<char>::empty());
        assert(cur@ + s@.skip(n as int) =~= cur@);
        lemma_find_char_append(cur@, Seq::<char>::empty(), sep);
        assert(cur@ + Seq::<char>::empty() =~= cur@);
        assert(split_on(cur@, sep) == seq![cur@]);
    }
    let ghost old_parts = parts@;
    let last = cur;
    parts.push(last);
    proof {
        assert(parts@.map_values(|p: Vec<char>| p@) =~= old_parts.map_values(|p: Vec<char>| p@) + seq![last@]);
    }
    parts
}

/// Lines made from `\n`-separated pieces: every piece but the last ended at a
/// newline (and loses a trailing `\r`); the last piece counts only if non-empty.
pub open spec fn lines_from_pieces(p: Seq<Seq<char>>) -> Seq<Seq<char>> {
    p.drop_last().map_values(|x: Seq<char>| strip_cr(x)) + if p.len() > 0 && p.last().len() > 0 {
        seq![p.last()]
    } else {
        Seq::<Seq<char>>::empty()
    }
}

pub proof fn lemma_split_on_nonempty(s: Seq<char>, sep: char)
    ensures
        split_on(s, sep).len() >= 1,
    decreases s.len(),
{
    lemma_find_char_bound(s, sep);
    let k = find_char(s, sep);
    if k < s.len() {
        lemma_split_on_nonempty(s.skip(k as int + 1), sep);
    }
}

pub proof fn lemma_lines_of_pieces(s: Seq<char>)
    requires
        s.len() > 0,
    ensures
        lines_of(s) == lines_from_pieces(split_on(s, '\n')),
    decreases s.len(),
{
    lemma_find_char_bound(s, '\n');
    let k = find_char(s, '\n');
    if k >= s.len() {
        assert(lines_from_pieces(seq![s]) =~= seq![s]);
    } else {
        let t = s.take(k as int);
        let r = s.skip(k as int + 1);
        lemma_split_on_nonempty(r, '\n');
        let p = split_on(r, '\n');
        let whole = seq![t] + p;
        assert(whole.drop_last() =~= seq![t] + p.drop_last());
        assert(whole.last() == p.last());
        assert(whole.drop_last().map_values(|x: Seq<char>| strip_cr(x)) =~= seq![strip_cr(t)] + p.drop_last().map_values(|x: Seq<char>| strip_cr(x)));
        if r.len() == 0 {
            assert(split_on(r, '\n') == seq![r]);
            assert(lines_of(r) == Seq::<Seq<char>>::empty());
            assert(lines_from_pieces(whole) =~= seq![strip_cr(t)]);
            assert(lines_of(s) =~= seq![strip_cr(t)]);
        } else {
            lemma_lines_of_pieces(r);
            assert(lines_from_pieces(whole) =~= seq![strip_cr(t)] + lines_from_pieces(p));
        }
    }
}

/// The sequence without a trailing `\r`.
pub fn strip_cr_exec(v: &Vec<char>) -> (r: Vec<char>)
    ensures
        r@ == strip_cr(v@),
{
    let mut out = v.clone();
    let n = out.len();
    if n > 0 && out[n - 1] == '\r' {
        let _ = out.pop();
    }
    assert(n > 0 && v@.last() == '\r' ==> out@ =~= v@.drop_last());
    out
}

/// The lines of `s`, as `str::lines` yields them.
pub fn lines(s: &Vec<char>) -> (ls: Vec<Vec<char>>)
    ensures
        ls@.map_values(|p: Vec<char>| p@) == lines_of(s@),
{
    if s.len() == 0 {
        let out: Vec<Vec<char>> = Vec::new();
        assert(out@.map_values(|p: Vec<char>| p@) =~= lines_of(s@));
        return out;
    }
    let parts = split_chars(s, '\n');
    let ghost pv = parts@.map_values(|p: Vec<char>| p@);
    proof {
        lemma_split_on_nonempty(s@, '\n');
        lemma_lines_of_pieces(s@);
    }
    let m = parts.len();
    let mut out: Vec<Vec<char>> = Vec::new();
    let mut j: usize = 0;
    while j + 1 < m
        invariant
            m == parts@.len(),
            m >= 1,
            j < m,
            pv == parts@.map_values(|p: Vec<char>| p@),
            out@.map_values(|p: Vec<char>| p@) == pv.take(j as int).map_values(|x: Seq<char>| strip_cr(x)),
        decreases m - j,
    {
        let line = strip_cr_exec(&parts[j]);
        let ghost before = out@;
        out.push(line);
        proof {
            assert(pv.take(j + 1) =~= pv.take(j as int).push(pv[j as int]));
            assert(out@.map_values(|p: Vec<char>| p@) =~= before.map_values(|p: Vec<char>| p@).push(line@));
            assert(pv.take(j + 1).map_values(|x: Seq<char>| strip_cr(x)) =~= pv.take(j as int).map_values(|x: Seq<char>| strip_cr(x)).push(strip_cr(pv[j as int])));
        }
        j = j + 1;
    }
    proof {
        assert(pv.take(j as int) =~= pv.drop_last());
    }
    if parts[m - 1].len() > 0 {
        let ghost before = out@;
        out.push(parts[m - 1].clone());
        assert(out@.map_values(|p: Vec<char>| p@) =~= before.map_values(|p: Vec<char>| p@) + seq![pv.last()]);
    } else {
        assert(out@.map_values(|p: Vec<char>| p@) =~= out@.map_values(|p: Vec<char>| p@) + Seq::<Seq<char>>::empty());
    }
    out
}

/// The chars `v[from..to]`.
pub fn subvec(v: &Vec<char>, from: usize, to: usize) -> (r: Vec<char>)
    requires
        from <= to <= v@.len(),
    ensures
        r@ == v@.subrange(from as int, to as int),
{
    let mut r: Vec<char> = Vec::new();
    let mut i = from;
    while i < to
        invariant
            from <= i <= to,
            to <= v@.len(),
            r@ == v@.subrange(from as int, i as int),
        decreases to - i,
    {
        r.push(v[i]);
        i = i + 1;
        assert(r@ =~= v@.subrange(from as int, i as int));
    }
    r
}

/// `a` followed by `b`.
pub fn concat_chars(a: &Vec<char>, b: &Vec<char>) -> (r: Vec<char>)
    ensures
        r@ == a@ + b@,
{
    let mut r = a.clone();
    let mut i: usize = 0;
    while i < b.len()
        invariant
            i <= b@.len(),
            r@ == a@ + b@.take(i as int),
        decreases b@.len() - i,
    {
        r.push(b[i]);
        i = i + 1;
        assert(r@ =~= a@ + b@.take(i as int));
    }
    assert(b@.take(b@.len() as int) =~= b@);
    r
}

/// `char::is_whitespace`: the chars with the Unicode `White_Space` property.
pub open spec fn is_ws(c: char) -> bool {
    let u = c as u32;
    (0x9 <= u <= 0xd) || u == 0x20 || u == 0x85 || u == 0xa0 || u == 0x1680 || (0x2000 <= u <= 0x200a)
        || u == 0x2028 || u == 0x2029 || u == 0x202f || u == 0x205f || u == 0x3000
}

pub fn is_whitespace_char(c: char) -> (b: bool)
    ensures
        b == is_ws(c),
{
    let u = c as u32;
    (0x9 <= u && u <= 0xd) || u == 0x20 || u == 0x85 || u == 0xa0 || u == 0x1680 || (0x2000 <= u && u <= 0x200a)
        || u == 0x2028 || u == 0x2029 || u == 0x202f || u == 0x205f || u == 0x3000
}

/// Number of leading non-whitespace chars.
pub open spec fn word_len(s: Seq<char>) -> nat
    decreases s.len(),
{
    if s.len() == 0 || is_ws(s[0]) { 0 } else { 1 + word_len(s.drop_first()) }
}

/// The whitespace-separated words of `s`, as `str::split_whitespace` yields them.
pub open spec fn words(s: Seq<char>) -> Seq<Seq<char>>
    decreases s.len(),
{
    if s.len() == 0 {
        Seq::empty()
    } else if is_ws(s[0]) {
        words(s.drop_first())
    } else {
        let k = word_len(s);
        if 0 < k <= s.len() {
            seq![s.take(k as int)] + words(s.skip(k as int))
        } else {
            Seq::empty()
        }
    }
}

proof fn lemma_word_len(x: Seq<char>, m: int)
    requires
        0 <= m <= x.len(),
        forall|j: int| 0 <= j < m ==> !is_ws(#[trigger] x[j]),
        m == x.len() || is_ws(x[m]),
    ensures
        word_len(x) == m,
    decreases m,
{
    if m > 0 {
        assert(!is_ws(x[0]));
        assert forall|j: int| 0 <= j < m - 1 implies !is_ws(#[trigger] x.drop_first()[j]) by {
            assert(x.drop_first()[j] == x[j + 1]);
        }
        if m < x.len() {
            assert(x.drop_first()[m - 1] == x[m]);
        }
        lemma_word_len(x.drop_first(), m - 1);
    }
}

/// The whitespace-separated words of `s`.
pub fn split_words(s: &Vec<char>) -> (ws: Vec<Vec<char>>)
    ensures
        ws@.map_values(|p: Vec<char>| p@) == words(s@),
{
    let n = s.len();
    let mut out: Vec<Vec<char>> = Vec::new();
    let mut i: usize = 0;
    assert(s@.skip(0) =~= s@);
    while i < n
        invariant
            n == s@.len(),
            i <= n,
            out@.map_values(|p: Vec<char>| p@) + words(s@.skip(i as int)) == words(s@),
        decreases n - i,
    {
        let ghost rest = s@.skip(i as int);
        if is_whitespace_char(s[i]) {
            assert(rest.drop_first() =~= s@.skip(i + 1));
            i = i + 1;
        } else {
            let start = i;
            while i < n && !is_whitespace_char(s[i])
                invariant
                    n == s@.len(),
                    start < n,
                    start <= i <= n,
                    forall|j: int| start <= j < i ==> !is_ws(#[trigger] s@[j]),
                decreases n - i,
            {
                i = i + 1;
            }
            proof {
                assert forall|j: int| 0 <= j < i - start implies !is_ws(#[trigger] rest[j]) by {
                    assert(rest[j] == s@[start + j]);
                }
                if i < n {
                    assert(rest[i - start] == s@[i as int]);
                }
                lemma_word_len(rest, i - start);
                assert(rest.skip(i - start) =~= s@.skip(i as int));
                assert(rest.take(i - start) =~= s@.subrange(start as int, i as int));
            }
            let word = subvec(s, start, i);
            let ghost before = out@.map_values(|p: Vec<char>| p@);
            out.push(word);
            assert(out@.map_values(|p: Vec<char>| p@) =~= before.push(word@));
            assert(before.push(word@) + words(s@.skip(i as int)) =~= before + (seq![word@] + words(s@.skip(i as int))));
        }
    }
    assert(words(s@.skip(n as int)) =~= Seq::<Seq<char>>::empty()) by {
        assert(s@.skip(n as int) =~= Seq::<char>::empty());
    }
    assert(out@.map_values(|p: Vec<char>| p@) =~= out@.map_values(|p: Vec<char>| p@) + Seq::<Seq<char>>::empty());
    out
}

/// Pieces joined with `sep` between neighbours (`[T]::join`).
pub open spec fn join_with(ps: Seq<Seq<char>>, sep: Seq<char>) -> Seq<char>
    decreases ps.len(),
{
    if ps.len() == 0 {
        Seq::empty()
    } else if ps.len() == 1 {
        ps[0]
    } else {
        join_with(ps.drop_last(), sep) + sep + ps.last()
    }
}

/// Joins `ps[from..]` with single spaces.
pub fn join_words_from(ps: &Vec<Vec<char>>, from: usize) -> (r: Vec<char>)
    requires
        from <= ps@.len(),
    ensures
        r@ == join_with(ps@.map_values(|p: Vec<char>| p@).skip(from as int), seq![' ']),
{
    let ghost pv = ps@.map_values(|p: Vec<char>| p@).skip(from as int);
    let mut out: Vec<char> = Vec::new();
    let mut i = from;
    while i < ps.len()
        invariant
            from <= i <= ps@.len(),
            pv == ps@.map_values(|p: Vec<char>| p@).skip(from as int),
            out@ == join_with(pv.take(i - from), seq![' ']),
        decreases ps@.len() - i,
    {
        let ghost pre = pv.take(i - from + 1);
        assert(pre.drop_last() =~= pv.take(i - from));
        assert(pre.last() == ps@[i as int]@);
        if i > from {
            out.push(' ');
        } else {
            assert(pre =~= seq![ps@[i as int]@]);
        }
        let ghost o2 = out@;
        out = concat_chars(&out, &ps[i]);
        i = i + 1;
        assert(out@ =~= join_with(pre, seq![' ']));
    }
    assert(pv.take(ps@.len() - from) =~= pv);
    out
}

/// The first `count` pieces joined with `sep` between neighbours.
pub fn join_prefix(ps: &Vec<Vec<char>>, count: usize, sep: char) -> (r: Vec<char>)
    requires
        count <= ps@.len(),
    ensures
        r@ == join_with(ps@.map_values(|p: Vec<char>| p@).take(count as int), seq![sep]),
{
    let ghost pv = ps@.map_values(|p: Vec<char>| p@);
    let mut out: Vec<char> = Vec::new();
    let mut i: usize = 0;
    while i < count
        invariant
            i <= count <= ps@.len(),
            pv == ps@.map_values(|p: Vec<char>| p@),
            out@ == join_with(pv.take(i as int), seq![sep]),
        decreases count - i,
    {
        let ghost pre = pv.take(i + 1);
        assert(pre.drop_last() =~= pv.take(i as int));
        assert(pre.last() == ps@[i as int]@);
        if i > 0 {
            out.push(sep);
        } else {
            assert(pre =~= seq![ps@[i as int]@]);
        }
        out = concat_chars(&out, &ps[i]);
        i = i + 1;
        assert(out@ =~= join_with(pre, seq![sep]));
    }
    out
}

/// Whether the chars spell `lit`.
pub fn chars_eq(a: &Vec<char>, lit: &str) -> (r: bool)
    ensures
        r == (a@ == lit@),
{
    let n = lit.unicode_len();
    if a.len() != n {
        return false;
    }
    let mut i: usize = 0;
    while i < n
        invariant
            n == lit@.len(),
            n == a@.len(),
            i <= n,
            a@.take(i as int) == lit@.take(i as int),
        decreases n - i,
    {
        if a[i] != lit.get_char(i) {
            return false;
        }
        assert(a@.take(i + 1) =~= a@.take(i as int).push(a@[i as int]));
        assert(lit@.take(i + 1) =~= lit@.take(i as int).push(lit@[i as int]));
        i = i + 1;
    }
    assert(a@ =~= a@.take(n as int));
    assert(lit@ =~= lit@.take(n as int));
    true
}

pub open spec fn is_digit(c: char) -> bool {
    '0' <= c <= '9'
}

/// Value of a string of decimal digits (most significant first).
pub open spec fn digits_value(d: Seq<char>) -> nat
    decreases d.len(),
{
    if d.len() == 0 {
        0
    } else {
        digits_value(d.drop_last()) * 10 + ((d.last() as u32) - ('0' as u32)) as nat
    }
}

pub open spec fn all_digits(d: Seq<char>) -> bool {
    forall|j: int| 0 <= j < d.len() ==> is_digit(#[trigger] d[j])
}

/// `usize::from_str`: an optional `+`, then one or more decimal digits whose value fits.
pub open spec fn parse_usize_spec(s: Seq<char>) -> Option<usize> {
    let d = if s.len() > 0 && s[0] == '+' { s.drop_first() } else { s };
    if d.len() == 0 || !all_digits(d) || digits_value(d) > usize::MAX {
        None
    } else {
        Some(digits_value(d) as usize)
    }
}

proof fn lemma_digits_value_grows(d: Seq<char>, i: int)
    requires
        0 <= i <= d.len(),
        forall|j: int| 0 <= j < d.len() ==> is_digit(#[trigger] d[j]),
    ensures
        digits_value(d.take(i)) <= digits_value(d),
    decreases d.len() - i,
{
    if i < d.len() {
        lemma_digits_value_grows(d, i + 1);
        let p = d.take(i + 1);
        assert(p.drop_last() =~= d.take(i));
        assert(p.last() == d[i]);
    } else {
        assert(d.take(i) =~= d);
    }
}

/// Parses a decimal `usize` the way `str::parse::<usize>` does.
pub fn parse_usize(s: &Vec<char>) -> (r: Option<usize>)
    ensures
        r == parse_usize_spec(s@),
{
    let n = s.len();
    let start: usize = if n > 0 && s[0] == '+' { 1 } else { 0 };
    let ghost d = if s@.len() > 0 && s@[0] == '+' { s@.drop_first() } else { s@ };
    assert(d =~= s@.skip(start as int));
    if n == start {
        return None;
    }
    let mut k = start;
    while k < n
        invariant
            start <= k <= n,
            n == s@.len(),
            d == s@.skip(start as int),
            d == (if s@.len() > 0 && s@[0] == '+' { s@.drop_first() } else { s@ }),
            forall|j: int| 0 <= j < k - start ==> is_digit(#[trigger] d[j]),
        decreases n - k,
    {
        let c = s[k];
        if !('0' <= c && c <= '9') {
            assert(d[k - start] == c);
            assert(!is_digit(d[k - start]));
            assert(0 <= k - start < d.len());
            assert(!all_digits(d));
            return None;
        }
        k = k + 1;
    }
    let mut value: usize = 0;
    let mut i = start;
    while i < n
        invariant
            start <= i <= n,
            n == s@.len(),
            d == s@.skip(start as int),
            d == (if s@.len() > 0 && s@[0] == '+' { s@.drop_first() } else { s@ }),
            d.len() > 0,
            forall|j: int| 0 <= j < d.len() ==> is_digit(#[trigger] d[j]),
            value == digits_value(d.take(i - start)),
        decreases n - i,
    {
        let c = s[i];
        let ghost p = d.take(i - start + 1);
        assert(p.drop_last() =~= d.take(i - start));
        assert(p.last() == c);
        let digit = (c as u32 - '0' as u32) as usize;
        proof {
            lemma_digits_value_grows(d, i - start + 1);
            assert(is_digit(d[i - start]));
            assert(digits_value(p) == value * 10 + digit);
        }
        match value.checked_mul(10) {
            Some(v10) => {
                match v10.checked_add(digit) {
                    Some(v) => {
                        value = v;
                    },
                    None => {
                        return None;
                    },
                }
            },
            None => {
                assert(digits_value(p) >= value * 10);
                return None;
            },
        }
        i = i + 1;
    }
    assert(d.take(d.len() as int) =~= d);
    Some(value)
}

} // verus!
