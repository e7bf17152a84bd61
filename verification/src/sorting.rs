//! Lexicographic order on text, composite sort keys, and a stable sort of
//! positions by key.

use vstd::prelude::*;

verus! {

/// Lexicographic order on char sequences: the order `String`'s `Ord` gives,
/// since UTF-8 byte order agrees with code point order.
pub open spec fn lex_lt(a: Seq<char>, b: Seq<char>) -> bool
    decreases a.len(),
{
    if a.len() == 0 {
        b.len() > 0
    } else if b.len() == 0 {
        false
    } else if a[0] != b[0] {
        (a[0] as u32) < (b[0] as u32)
    } else {
        lex_lt(a.drop_first(), b.drop_first())
    }
}

pub proof fn lemma_lex_irreflexive(a: Seq<char>)
    ensures
        !lex_lt(a, a),
    decreases a.len(),
{
    if a.len() > 0 {
        lemma_lex_irreflexive(a.drop_first());
    }
}

pub proof fn lemma_lex_transitive(a: Seq<char>, b: Seq<char>, c: Seq<char>)
    requires
        lex_lt(a, b),
        lex_lt(b, c),
    ensures
        lex_lt(a, c),
    decreases a.len(),
{
    if a.len() > 0 && b.len() > 0 && c.len() > 0 && a[0] == b[0] && b[0] == c[0] {
        lemma_lex_transitive(a.drop_first(), b.drop_first(), c.drop_first());
    }
}

pub proof fn lemma_lex_total(a: Seq<char>, b: Seq<char>)
    requires
        a != b,
    ensures
        lex_lt(a, b) || lex_lt(b, a),
    decreases a.len(),
{
    if a.len() > 0 && b.len() > 0 && a[0] == b[0] {
        if a.drop_first() == b.drop_first() {
            assert(a =~= seq![a[0]] + a.drop_first());
            assert(b =~= seq![b[0]] + b.drop_first());
        }
        lemma_lex_total(a.drop_first(), b.drop_first());
    } else if a.len() > 0 && b.len() > 0 {
        vstd::utf8::char_u32_cast(a[0], a[0] as u32);
        vstd::utf8::char_u32_cast(b[0], b[0] as u32);
    } else if a.len() == 0 && b.len() == 0 {
        assert(a =~= b);
    }
}

/// Whether `a` comes strictly before `b` in lexicographic order.
pub fn chars_lt(a: &Vec<char>, b: &Vec<char>) -> (r: bool)
    ensures
        r == lex_lt(a@, b@),
{
    let n = a.len();
    let m = b.len();
    let mut i: usize = 0;
    assert(a@.skip(0) =~= a@);
    assert(b@.skip(0) =~= b@);
    while i < n && i < m
        invariant
            n == a@.len(),
            m == b@.len(),
            i <= n,
            i <= m,
            lex_lt(a@, b@) == lex_lt(a@.skip(i as int), b@.skip(i as int)),
        decreases n - i,
    {
        let x = a[i];
        let y = b[i];
        assert(a@.skip(i as int)[0] == x);
        assert(b@.skip(i as int)[0] == y);
        if x != y {
            return (x as u32) < (y as u32);
        }
        assert(a@.skip(i as int).drop_first() =~= a@.skip(i + 1));
        assert(b@.skip(i as int).drop_first() =~= b@.skip(i + 1));
        i = i + 1;
    }
    assert(a@.skip(i as int).len() == n - i);
    assert(b@.skip(i as int).len() == m - i);
    i == n && i < m
}

/// A sort key: compared by its first component, then its second, then the
/// third lexicographically.
pub type SortKey = (int, int, Seq<char>);

pub open spec fn key_lt(a: SortKey, b: SortKey) -> bool {
    a.0 < b.0 || (a.0 == b.0 && (a.1 < b.1 || (a.1 == b.1 && lex_lt(a.2, b.2))))
}

pub proof fn lemma_key_irreflexive(a: SortKey)
    ensures
        !key_lt(a, a),
{
    lemma_lex_irreflexive(a.2);
}

pub proof fn lemma_key_transitive(a: SortKey, b: SortKey, c: SortKey)
    requires
        key_lt(a, b),
        key_lt(b, c),
    ensures
        key_lt(a, c),
{
    if a.0 == b.0 && b.0 == c.0 && a.1 == b.1 && b.1 == c.1 {
        lemma_lex_transitive(a.2, b.2, c.2);
    }
}

pub proof fn lemma_key_total(a: SortKey, b: SortKey)
    requires
        a != b,
    ensures
        key_lt(a, b) || key_lt(b, a),
{
    if a.0 == b.0 && a.1 == b.1 {
        lemma_lex_total(a.2, b.2);
    }
}

pub proof fn lemma_key_asymmetric(a: SortKey, b: SortKey)
    requires
        key_lt(a, b),
    ensures
        !key_lt(b, a),
{
    if key_lt(b, a) {
        lemma_key_transitive(a, b, a);
        lemma_key_irreflexive(a);
    }
}

/// Position `i` goes before position `j` when its key is smaller, or the keys
/// are equal and it came first (a stable sort).
pub open spec fn pos_before(keys: Seq<SortKey>, i: int, j: int) -> bool {
    key_lt(keys[i], keys[j]) || (keys[i] == keys[j] && i < j)
}

/// `p` lists every position of `keys` once, in stable key order.
pub open spec fn is_stable_order(keys: Seq<SortKey>, p: Seq<usize>) -> bool {
    &&& p.len() == keys.len()
    &&& forall|k: int| 0 <= k < p.len() ==> #[trigger] p[k] < keys.len()
    &&& forall|a: int, b: int| 0 <= a < b < p.len() ==> pos_before(keys, #[trigger] p[a] as int, #[trigger] p[b] as int)
}

pub proof fn lemma_pos_before_transitive(keys: Seq<SortKey>, i: int, j: int, k: int)
    requires
        pos_before(keys, i, j),
        pos_before(keys, j, k),
    ensures
        pos_before(keys, i, k),
{
    if key_lt(keys[i], keys[j]) && key_lt(keys[j], keys[k]) {
        lemma_key_transitive(keys[i], keys[j], keys[k]);
    }
}

/// A sort key held in exec values: `group` ascending, then `num` descending,
/// then `text` lexicographically.
pub struct SortKeyExec {
    pub group: u8,
    pub num: i128,
    pub text: Vec<char>,
}

impl SortKeyExec {
    pub open spec fn view(&self) -> SortKey {
        (self.group as int, -(self.num as int), self.text@)
    }
}

pub open spec fn keys_view(keys: Seq<SortKeyExec>) -> Seq<SortKey> {
    keys.map_values(|k: SortKeyExec| k.view())
}

/// Whether key `a` is strictly smaller than key `b`.
pub fn exec_key_lt(a: &SortKeyExec, b: &SortKeyExec) -> (r: bool)
    ensures
        r == key_lt(a.view(), b.view()),
{
    if a.group != b.group {
        a.group < b.group
    } else if a.num != b.num {
        a.num > b.num
    } else {
        chars_lt(&a.text, &b.text)
    }
}

/// Positions of `keys` in stable key order (insertion sort).
pub fn stable_order(keys: &Vec<SortKeyExec>) -> (p: Vec<usize>)
    ensures
        is_stable_order(keys_view(keys@), p@),
{
    let ghost kv = keys_view(keys@);
    let n = keys.len();
    let mut p: Vec<usize> = Vec::new();
    let mut i: usize = 0;
    while i < n
        invariant
            n == keys@.len(),
            kv == keys_view(keys@),
            i <= n,
            p@.len() == i,
            forall|k: int| 0 <= k < p@.len() ==> #[trigger] p@[k] < i,
            forall|a: int, b: int| 0 <= a < b < p@.len() ==> pos_before(kv, #[trigger] p@[a] as int, #[trigger] p@[b] as int),
        decreases n - i,
    {
        // first place whose key is strictly greater than the new one
        let mut q: usize = 0;
        while q < p.len() && !exec_key_lt(&keys[i], &keys[p[q]])
            invariant
                q <= p@.len(),
                i < n,
                n == keys@.len(),
                kv == keys_view(keys@),
                forall|k: int| 0 <= k < p@.len() ==> #[trigger] p@[k] < i,
                forall|k: int| 0 <= k < q ==> !key_lt(kv[i as int], kv[#[trigger] p@[k] as int]),
            decreases p@.len() - q,
        {
            q = q + 1;
        }
        let ghost old_p = p@;
        proof {
            assert forall|k: int| 0 <= k < q implies pos_before(kv, #[trigger] old_p[k] as int, i as int) by {
                if kv[old_p[k] as int] != kv[i as int] {
                    lemma_key_total(kv[old_p[k] as int], kv[i as int]);
                }
            }
            assert forall|k: int| q <= k < old_p.len() implies pos_before(kv, i as int, #[trigger] old_p[k] as int) by {
                if k > q {
                    assert(pos_before(kv, old_p[q as int] as int, old_p[k] as int));
                    if key_lt(kv[old_p[q as int] as int], kv[old_p[k] as int]) {
                        lemma_key_transitive(kv[i as int], kv[old_p[q as int] as int], kv[old_p[k] as int]);
                    }
                }
            }
        }
        p.insert(q, i);
        proof {
            assert forall|a: int, b: int| 0 <= a < b < p@.len() implies pos_before(kv, #[trigger] p@[a] as int, #[trigger] p@[b] as int) by {
                if b < q {
                    assert(p@[a] == old_p[a] && p@[b] == old_p[b]);
                } else if b == q {
                    assert(p@[a] == old_p[a]);
                } else if a < q {
                    assert(p@[a] == old_p[a] && p@[b] == old_p[b - 1]);
                    lemma_pos_before_transitive(kv, old_p[a] as int, i as int, old_p[b - 1] as int);
                } else if a == q {
                    assert(p@[b] == old_p[b - 1]);
                } else {
                    assert(p@[a] == old_p[a - 1] && p@[b] == old_p[b - 1]);
                }
            }
        }
        i = i + 1;
    }
    p
}

} // verus!
