//! A generic fuzzy picker: items are matched by a text key against a query
//! and listed best match first.

use vstd::prelude::*;
use crate::fuzzy_finder::matching::{fuzzy_score, fuzzy_scores};
use crate::sorting::{SortKey, SortKeyExec, keys_view, is_stable_order, stable_order};
use crate::text::{is_ws, is_whitespace_char};

verus! {

/// The query has nothing but whitespace (`query.trim().is_empty()`).
pub open spec fn blank(q: Seq<char>) -> bool {
    forall|i: int| 0 <= i < q.len() ==> is_ws(#[trigger] q[i])
}

/// Candidates that have a score, in candidate order, with their scores.
pub open spec fn scored_from(scores: Seq<Option<u32>>) -> Seq<(usize, u32)>
    decreases scores.len(),
{
    if scores.len() == 0 {
        Seq::empty()
    } else {
        let before = scored_from(scores.drop_last());
        match scores.last() {
            Some(s) => before.push(((scores.len() - 1) as usize, s)),
            None => before,
        }
    }
}

/// The matcher's score of each candidate key against `q` (smart case).
pub open spec fn key_scores(q: Seq<char>, keys: Seq<Seq<char>>) -> Seq<Option<u32>> {
    Seq::new(keys.len(), |i: int| fuzzy_score(q, true, keys[i]))
}

/// Candidates the query matches, in candidate order, with their scores.
pub open spec fn scored(q: Seq<char>, keys: Seq<Seq<char>>) -> Seq<(usize, u32)> {
    scored_from(key_scores(q, keys))
}

/// Best score first.
pub open spec fn score_keys(ps: Seq<(usize, u32)>) -> Seq<SortKey> {
    ps.map_values(|p: (usize, u32)| (0int, -(p.1 as int), Seq::<char>::empty()))
}

/// `out` is `ps` in stable order of descending score.
pub open spec fn ranked(ps: Seq<(usize, u32)>, out: Seq<(usize, u32)>) -> bool {
    exists|p: Seq<usize>|
        #![trigger is_stable_order(score_keys(ps), p)]
        is_stable_order(score_keys(ps), p) && out.len() == p.len()
            && forall|k: int| 0 <= k < p.len() ==> #[trigger] out[k] == ps[p[k] as int]
}

/// `out` is the scored candidates, best first (ties in candidate order),
/// cut to `limit`.
pub open spec fn best_first(scores: Seq<Option<u32>>, limit: nat, out: Seq<(usize, u32)>) -> bool {
    exists|full: Seq<(usize, u32)>| #[trigger] ranked(scored_from(scores), full)
        && out == full.take(if limit < full.len() { limit as int } else { full.len() as int })
}

/// What `fuzzy_match_items` returns: for a blank query the first `limit`
/// candidates (scored `u32::MAX`), else the matches best first, cut to `limit`.
pub open spec fn match_items(q: Seq<char>, keys: Seq<Seq<char>>, limit: nat, out: Seq<(usize, u32)>) -> bool {
    if blank(q) {
        out == Seq::new(if limit < keys.len() { limit } else { keys.len() }, |i: int| (i as usize, u32::MAX))
    } else {
        best_first(key_scores(q, keys), limit, out)
    }
}

fn is_blank(q: &str) -> (r: bool)
    ensures
        r == blank(q@),
{
    let n = q.unicode_len();
    let mut i: usize = 0;
    while i < n
        invariant
            n == q@.len(),
            i <= n,
            forall|j: int| 0 <= j < i ==> is_ws(#[trigger] q@[j]),
        decreases n - i,
    {
        if !is_whitespace_char(q.get_char(i)) {
            return false;
        }
        i = i + 1;
    }
    true
}

/// Candidates (given by their keys) matched against `query`, best first, at
/// most `limit` of them.
pub fn fuzzy_match_items(query: &str, keys: &Vec<String>, limit: usize) -> (r: Vec<(usize, u32)>)
    requires
        query@.len() <= 65536,
        forall|i: int| 0 <= i < keys@.len() ==> #[trigger] keys@[i]@.len() <= u32::MAX,
    ensures
        match_items(query@, keys@.map_values(|s: String| s@), limit as nat, r@),
{
    let ghost kv = keys@.map_values(|s: String| s@);
    if is_blank(query) {
        let count = if limit < keys.len() { limit } else { keys.len() };
        let mut r: Vec<(usize, u32)> = Vec::new();
        let mut i: usize = 0;
        while i < count
            invariant
                i <= count,
                r@ == Seq::new(i as nat, |j: int| (j as usize, u32::MAX)),
            decreases count - i,
        {
            r.push((i, u32::MAX));
            i = i + 1;
            assert(r@ =~= Seq::new(i as nat, |j: int| (j as usize, u32::MAX)));
        }
        return r;
    }
    let scores = fuzzy_scores(query, true, keys);
    assert(scores@ =~= key_scores(query@, kv));
    rank_matches(&scores, limit)
}

/// The candidates that have a score (`scores[i]` for candidate `i`), best
/// first with ties in candidate order, at most `limit` of them.
pub fn rank_matches(scores: &Vec<Option<u32>>, limit: usize) -> (r: Vec<(usize, u32)>)
    ensures
        best_first(scores@, limit as nat, r@),
{
    let mut ps: Vec<(usize, u32)> = Vec::new();
    let mut i: usize = 0;
    assert(scores@.take(0) =~= Seq::<Option<u32>>::empty());
    while i < scores.len()
        invariant
            i <= scores@.len(),
            ps@ == scored_from(scores@.take(i as int)),
        decreases scores@.len() - i,
    {
        assert(scores@.take(i + 1).drop_last() =~= scores@.take(i as int));
        assert(scores@.take(i + 1).last() == scores@[i as int]);
        match scores[i] {
            Some(s) => {
                ps.push((i, s));
            },
            None => {},
        }
        i = i + 1;
    }
    assert(scores@.take(scores@.len() as int) =~= scores@);
    let mut sk: Vec<SortKeyExec> = Vec::new();
    let mut k: usize = 0;
    while k < ps.len()
        invariant
            k <= ps@.len(),
            sk@.len() == k,
            forall|j: int| 0 <= j < k ==> #[trigger] sk@[j].view() == score_keys(ps@)[j],
        decreases ps@.len() - k,
    {
        sk.push(SortKeyExec { group: 0, num: ps[k].1 as i128, text: Vec::new() });
        k = k + 1;
    }
    assert(keys_view(sk@) =~= score_keys(ps@));
    let p = stable_order(&sk);
    let mut full: Vec<(usize, u32)> = Vec::new();
    k = 0;
    while k < p.len()
        invariant
            k <= p@.len(),
            is_stable_order(score_keys(ps@), p@),
            full@.len() == k,
            forall|j: int| 0 <= j < k ==> #[trigger] full@[j] == ps@[p@[j] as int],
        decreases p@.len() - k,
    {
        assert(p@[k as int] < ps@.len());
        full.push(ps[p[k]]);
        k = k + 1;
    }
    assert(ranked(ps@, full@));
    let ghost whole = full@;
    let keep = if limit < full.len() { limit } else { full.len() };
    full.truncate(keep);
    assert(full@ == whole.take(keep as int));
    full
}

/// A picker over items of any kind.
#[derive(Debug, Clone)]
pub struct FuzzyFinder<T> {
    pub query: String,
    pub items: Vec<T>,
    /// Matches: (item index, score), best first.
    pub filtered: Vec<(usize, u32)>,
    pub selected: usize,
    pub active: bool,
}

impl<T> FuzzyFinder<T> {
    pub fn new() -> (f: Self)
        ensures
            f.query@.len() == 0,
            f.items@.len() == 0,
            f.filtered@.len() == 0,
            f.selected == 0,
            !f.active,
    {
        FuzzyFinder { query: String::new(), items: Vec::new(), filtered: Vec::new(), selected: 0, active: false }
    }

    pub fn deactivate(&mut self)
        ensures
            !final(self).active,
            final(self).query@.len() == 0,
            final(self).filtered@.len() == 0,
            final(self).selected == 0,
            final(self).items == old(self).items,
    {
        self.active = false;
        self.query = String::new();
        self.filtered = Vec::new();
        self.selected = 0;
    }

    pub fn move_up(&mut self)
        ensures
            final(self).selected == if old(self).selected > 0 { old(self).selected - 1 } else { 0 },
            final(self).filtered == old(self).filtered,
            final(self).items == old(self).items,
            final(self).query == old(self).query,
            final(self).active == old(self).active,
    {
        if self.selected > 0 {
            self.selected = self.selected - 1;
        }
    }

    pub fn move_down(&mut self)
        ensures
            final(self).selected == if old(self).selected + 1 < old(self).filtered@.len() {
                old(self).selected + 1
            } else {
                old(self).selected as int
            },
            final(self).filtered == old(self).filtered,
            final(self).items == old(self).items,
            final(self).query == old(self).query,
            final(self).active == old(self).active,
    {
        if self.selected < self.filtered.len() && self.selected + 1 < self.filtered.len() {
            self.selected = self.selected + 1;
        }
    }

    /// Keeps the selection on a match (or at 0 when there are none).
    pub fn clamp_selection(&mut self)
        ensures
            final(self).selected == if old(self).filtered@.len() == 0 {
                0
            } else if old(self).selected < old(self).filtered@.len() {
                old(self).selected as int
            } else {
                old(self).filtered@.len() - 1
            },
            final(self).filtered == old(self).filtered,
            final(self).items == old(self).items,
            final(self).query == old(self).query,
            final(self).active == old(self).active,
    {
        let n = self.filtered.len();
        let last = if n > 0 { n - 1 } else { 0 };
        if self.selected > last {
            self.selected = last;
        }
    }

    /// The item behind the `index`-th match.
    pub fn item_at_filtered_index(&self, index: usize) -> (r: Option<&T>)
        ensures
            match r {
                Some(t) => index < self.filtered@.len() && self.filtered@[index as int].0 < self.items@.len()
                    && *t == self.items@[self.filtered@[index as int].0 as int],
                None => index >= self.filtered@.len() || self.filtered@[index as int].0 >= self.items@.len(),
            },
    {
        if index >= self.filtered.len() {
            return None;
        }
        let item_idx = self.filtered[index].0;
        if item_idx < self.items.len() {
            Some(&self.items[item_idx])
        } else {
            None
        }
    }

    pub fn selected_item(&self) -> (r: Option<&T>)
        ensures
            match r {
                Some(t) => self.selected < self.filtered@.len() && self.filtered@[self.selected as int].0 < self.items@.len()
                    && *t == self.items@[self.filtered@[self.selected as int].0 as int],
                None => self.selected >= self.filtered@.len() || self.filtered@[self.selected as int].0 >= self.items@.len(),
            },
    {
        self.item_at_filtered_index(self.selected)
    }

    pub fn activate_with_items(&mut self, items: Vec<T>)
        ensures
            final(self).active,
            final(self).query@.len() == 0,
            final(self).selected == 0,
            final(self).items == items,
            final(self).filtered == old(self).filtered,
    {
        self.active = true;
        self.query = String::new();
        self.selected = 0;
        self.items = items;
    }

    /// Re-matches the query; `keys[i]` is the text item `i` is matched by.
    pub fn refresh(&mut self, keys: &Vec<String>, limit: usize)
        requires
            old(self).query@.len() <= 65536,
            forall|i: int| 0 <= i < keys@.len() ==> #[trigger] keys@[i]@.len() <= u32::MAX,
        ensures
            match_items(old(self).query@, keys@.map_values(|s: String| s@), limit as nat, final(self).filtered@),
            final(self).selected == if final(self).filtered@.len() == 0 {
                0
            } else if old(self).selected < final(self).filtered@.len() {
                old(self).selected as int
            } else {
                final(self).filtered@.len() - 1
            },
            final(self).items == old(self).items,
            final(self).query == old(self).query,
            final(self).active == old(self).active,
    {
        self.filtered = fuzzy_match_items(self.query.as_str(), keys, limit);
        self.clamp_selection();
    }
}

} // verus!
