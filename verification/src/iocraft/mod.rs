//! Layout arithmetic and text shaping behind the iocraft screens.

pub mod card;
pub mod chat;
pub mod hint_bar;
pub mod section_block;
pub mod theme;
pub mod welcome;

use vstd::prelude::*;
use crate::text::{lines_of, lines, strip_cr, find_char, lemma_find_char_bound};
use crate::strs::chars_of;

verus! {

/// `a / b` rounded up (for `b > 0`).
pub open spec fn div_ceil(a: nat, b: nat) -> nat {
    if a == 0 { 0 } else { ((a - 1) as nat) / b + 1 }
}

/// Rows a line of `len` chars takes at `width` columns: at least one.
pub open spec fn rows_for(len: nat, width: nat) -> nat {
    let c = div_ceil(len, width);
    if c >= 1 { c } else { 1 }
}

/// Rows the given lines take, summed.
pub open spec fn rows_total(ls: Seq<Seq<char>>, width: nat) -> nat
    decreases ls.len(),
{
    if ls.len() == 0 { 0 } else { rows_total(ls.drop_last(), width) + rows_for(ls.last().len(), width) }
}

/// Rows `content` takes when wrapped at `width` columns; never less than one.
pub open spec fn wrapped_rows(content: Seq<char>, width: nat) -> nat {
    if width == 0 || content.len() == 0 {
        1
    } else {
        let t = rows_total(lines_of(content), width);
        if t >= 1 { t } else { 1 }
    }
}

/// Chars of all lines plus one per line.
pub open spec fn len_sum(ls: Seq<Seq<char>>) -> nat
    decreases ls.len(),
{
    if ls.len() == 0 { 0 } else { len_sum(ls.drop_last()) + ls.last().len() + 1 }
}

proof fn lemma_len_sum_prepend(a: Seq<char>, rest: Seq<Seq<char>>)
    ensures
        len_sum(seq![a] + rest) == a.len() + 1 + len_sum(rest),
    decreases rest.len(),
{
    if rest.len() > 0 {
        assert((seq![a] + rest).drop_last() =~= seq![a] + rest.drop_last());
        assert((seq![a] + rest).last() == rest.last());
        lemma_len_sum_prepend(a, rest.drop_last());
    } else {
        assert(seq![a] + rest =~= seq![a]);
        assert(seq![a].drop_last() =~= Seq::<Seq<char>>::empty());
        assert(len_sum(seq![a]) == len_sum(seq![a].drop_last()) + a.len() + 1);
    }
}

proof fn lemma_lines_len_sum(s: Seq<char>)
    ensures
        len_sum(lines_of(s)) <= s.len() + 1,
    decreases s.len(),
{
    if s.len() > 0 {
        lemma_find_char_bound(s, '\n');
        let k = find_char(s, '\n');
        if k >= s.len() {
            assert(lines_of(s) == seq![s]);
            assert(seq![s].drop_last() =~= Seq::<Seq<char>>::empty());
            assert(len_sum(seq![s]) == len_sum(seq![s].drop_last()) + s.len() + 1);
        } else {
            let t = s.take(k as int);
            let r = s.skip(k as int + 1);
            assert(lines_of(s) == seq![strip_cr(t)] + lines_of(r));
            assert(strip_cr(t).len() <= t.len());
            lemma_lines_len_sum(r);
            lemma_len_sum_prepend(strip_cr(t), lines_of(r));
        }
    }
}

proof fn lemma_rows_for_bound(len: nat, width: nat)
    requires
        width > 0,
    ensures
        rows_for(len, width) <= len + 1,
{
    if len > 0 {
        let l1 = (len - 1) as nat;
        assert(l1 / width <= l1) by (nonlinear_arith)
            requires width > 0;
    }
}

proof fn lemma_rows_total_bound(ls: Seq<Seq<char>>, width: nat)
    requires
        width > 0,
    ensures
        rows_total(ls, width) <= len_sum(ls),
    decreases ls.len(),
{
    if ls.len() > 0 {
        lemma_rows_total_bound(ls.drop_last(), width);
        lemma_rows_for_bound(ls.last().len(), width);
    }
}

/// Rows one line of `len` chars takes.
fn rows_for_exec(len: usize, width: usize) -> (r: usize)
    requires
        width > 0,
    ensures
        r == rows_for(len as nat, width as nat),
{
    let c = if len == 0 { 0 } else { (len - 1) / width + 1 };
    if c >= 1 { c } else { 1 }
}

/// Number of terminal rows `content` occupies when wrapped at `width` columns
/// (one per line at least, and at least one overall).
pub fn wrapped_line_count(content: &str, width: u16) -> (n: usize)
    requires
        content@.len() < usize::MAX,
    ensures
        n == wrapped_rows(content@, width as nat),
{
    if width == 0 {
        return 1;
    }
    let w = width as usize;
    let chars = chars_of(content);
    let ls = lines(&chars);
    let ghost lv = ls@.map_values(|p: Vec<char>| p@);
    proof {
        lemma_lines_len_sum(content@);
        lemma_rows_total_bound(lv, w as nat);
    }
    let mut total: usize = 0;
    let mut i: usize = 0;
    while i < ls.len()
        invariant
            w > 0,
            w == width,
            lv == ls@.map_values(|p: Vec<char>| p@),
            lv == lines_of(content@),
            len_sum(lv) <= content@.len() + 1,
            content@.len() < usize::MAX,
            i <= ls@.len(),
            total == rows_total(lv.take(i as int), w as nat),
            total <= len_sum(lv.take(i as int)),
        decreases ls@.len() - i,
    {
        let ghost pre = lv.take(i + 1);
        assert(pre.drop_last() =~= lv.take(i as int));
        assert(pre.last() == lv[i as int]);
        proof {
            lemma_rows_for_bound(lv[i as int].len(), w as nat);
            lemma_len_sum_prefix(lv, i + 1);
        }
        assert(len_sum(pre) == len_sum(lv.take(i as int)) + lv[i as int].len() + 1);
        assert(rows_total(pre, w as nat) == rows_total(lv.take(i as int), w as nat) + rows_for(lv[i as int].len(), w as nat));
        assert(lv[i as int] == ls@[i as int]@);
        let r = rows_for_exec(ls[i].len(), w);
        assert(total + r <= len_sum(pre));
        total = total + r;
        i = i + 1;
    }
    assert(lv.take(ls@.len() as int) =~= lv);
    if content.unicode_len() == 0 {
        1
    } else if total >= 1 {
        total
    } else {
        1
    }
}

/// `len_sum` only grows along prefixes.
proof fn lemma_len_sum_prefix(ls: Seq<Seq<char>>, j: int)
    requires
        0 <= j <= ls.len(),
    ensures
        len_sum(ls.take(j)) <= len_sum(ls),
    decreases ls.len() - j,
{
    if j < ls.len() {
        lemma_len_sum_prefix(ls, j + 1);
        assert(ls.take(j + 1).drop_last() =~= ls.take(j));
    } else {
        assert(ls.take(j) =~= ls);
    }
}

} // verus!
