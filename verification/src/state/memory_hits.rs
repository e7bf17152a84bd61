//! Memory hits panel state: search results, the selected one, and the
//! documents pinned to the context.

use vstd::prelude::*;
use crate::strs::{str_eq, to_owned};

verus! {

/// State for the memory hits panel; `H` is a search hit.
#[derive(Debug, Clone)]
pub struct MemoryHitsState<H> {
    /// Current search results
    pub hits: Vec<H>,
    /// Selected hit index
    pub selected_index: usize,
    /// Pinned document IDs (added to context set), each once
    pub pinned_ids: Vec<String>,
    /// Panel visibility state
    pub visible: bool,
    /// Current search query
    pub query: String,
    /// Search execution time (ms)
    pub search_time_ms: u64,
}

pub open spec fn ids_view(ids: Seq<String>) -> Seq<Seq<char>> {
    ids.map_values(|s: String| s@)
}

impl<H> MemoryHitsState<H> {
    /// The pinned ids as a set.
    pub open spec fn pinned(&self) -> Set<Seq<char>> {
        ids_view(self.pinned_ids@).to_set()
    }

    /// No id is pinned twice.
    pub open spec fn wf(&self) -> bool {
        ids_view(self.pinned_ids@).no_duplicates()
    }

    /// Create a new memory hits state
    pub fn new() -> (s: Self)
        ensures
            s.wf(),
            s.hits@.len() == 0,
            s.selected_index == 0,
            s.pinned_ids@.len() == 0,
            !s.visible,
            s.query@.len() == 0,
            s.search_time_ms == 0,
    {
        let s = MemoryHitsState {
            hits: Vec::new(),
            selected_index: 0,
            pinned_ids: Vec::new(),
            visible: false,
            query: String::new(),
            search_time_ms: 0,
        };
        assert(ids_view(s.pinned_ids@) =~= Seq::<Seq<char>>::empty());
        s
    }

    /// Update the hits from a search result
    pub fn set_hits(&mut self, hits: Vec<H>, query: String, search_time_ms: u64)
        ensures
            final(self).hits == hits,
            final(self).query == query,
            final(self).search_time_ms == search_time_ms,
            final(self).selected_index == 0,
            final(self).visible == (hits@.len() > 0),
            final(self).pinned_ids == old(self).pinned_ids,
    {
        let is_empty = hits.len() == 0;
        self.hits = hits;
        self.query = query;
        self.search_time_ms = search_time_ms;
        self.selected_index = 0;
        self.visible = !is_empty;
    }

    /// Clear all hits and hide the panel
    pub fn clear(&mut self)
        ensures
            final(self).hits@.len() == 0,
            final(self).query@.len() == 0,
            final(self).selected_index == 0,
            !final(self).visible,
            final(self).pinned_ids == old(self).pinned_ids,
            final(self).search_time_ms == old(self).search_time_ms,
    {
        self.hits.clear();
        self.query = String::new();
        self.selected_index = 0;
        self.visible = false;
    }

    /// Check if the panel is visible
    pub fn is_visible(&self) -> (r: bool)
        ensures
            r == (self.visible && self.hits@.len() > 0),
    {
        self.visible && self.hits.len() > 0
    }

    /// Get the currently selected hit
    pub fn selected_hit(&self) -> (r: Option<&H>)
        ensures
            match r {
                Some(h) => self.selected_index < self.hits@.len() && *h == self.hits@[self.selected_index as int],
                None => self.selected_index >= self.hits@.len(),
            },
    {
        if self.selected_index < self.hits.len() {
            Some(&self.hits[self.selected_index])
        } else {
            None
        }
    }

    /// Select the next hit, wrapping to the first
    pub fn select_next(&mut self)
        requires
            old(self).selected_index < usize::MAX,
        ensures
            final(self).selected_index == if old(self).hits@.len() > 0 {
                (old(self).selected_index + 1) % (old(self).hits@.len() as int)
            } else {
                old(self).selected_index as int
            },
            final(self).hits == old(self).hits,
            final(self).pinned_ids == old(self).pinned_ids,
            final(self).visible == old(self).visible,
    {
        if self.hits.len() > 0 {
            self.selected_index = (self.selected_index + 1) % self.hits.len();
        }
    }

    /// Select the previous hit, wrapping to the last
    pub fn select_prev(&mut self)
        ensures
            final(self).selected_index == if old(self).hits@.len() > 0 {
                if old(self).selected_index == 0 { old(self).hits@.len() - 1 } else { old(self).selected_index - 1 }
            } else {
                old(self).selected_index as int
            },
            final(self).hits == old(self).hits,
            final(self).pinned_ids == old(self).pinned_ids,
            final(self).visible == old(self).visible,
    {
        if self.hits.len() > 0 {
            self.selected_index = if self.selected_index == 0 { self.hits.len() - 1 } else { self.selected_index - 1 };
        }
    }

    /// Position of `id` among the pinned ids.
    fn find_pinned(&self, id: &str) -> (r: Option<usize>)
        ensures
            match r {
                Some(k) => k < self.pinned_ids@.len() && self.pinned_ids@[k as int]@ == id@,
                None => forall|k: int| 0 <= k < self.pinned_ids@.len() ==> (#[trigger] self.pinned_ids@[k])@ != id@,
            },
    {
        let mut k: usize = 0;
        while k < self.pinned_ids.len()
            invariant
                k <= self.pinned_ids@.len(),
                forall|j: int| 0 <= j < k ==> (#[trigger] self.pinned_ids@[j])@ != id@,
            decreases self.pinned_ids@.len() - k,
        {
            if str_eq(self.pinned_ids[k].as_str(), id) {
                return Some(k);
            }
            k = k + 1;
        }
        None
    }

    /// Check if a document is pinned
    pub fn is_pinned(&self, id: &str) -> (r: bool)
        ensures
            r == self.pinned().contains(id@),
    {
        let found = self.find_pinned(id);
        proof {
            let v = ids_view(self.pinned_ids@);
            if let Some(k) = found {
                assert(v[k as int] == id@);
            } else {
                if v.contains(id@) {
                    let j = choose|j: int| 0 <= j < v.len() && v[j] == id@;
                    assert(self.pinned_ids@[j]@ == id@);
                }
            }
        }
        found.is_some()
    }

    /// Pin a document
    pub fn pin(&mut self, id: String)
        requires
            old(self).wf(),
        ensures
            final(self).wf(),
            final(self).pinned() == old(self).pinned().insert(id@),
            final(self).hits == old(self).hits,
            final(self).selected_index == old(self).selected_index,
            final(self).visible == old(self).visible,
    {
        if self.is_pinned(id.as_str()) {
            assert(old(self).pinned().insert(id@) =~= old(self).pinned());
            return;
        }
        let ghost v = ids_view(self.pinned_ids@);
        self.pinned_ids.push(id);
        proof {
            assert(ids_view(self.pinned_ids@) =~= v.push(id@));
            assert(!v.contains(id@));
            let w = v.push(id@);
            assert forall|x: Seq<char>| #[trigger] w.to_set().contains(x) <==> v.to_set().insert(id@).contains(x) by {
                if w.to_set().contains(x) {
                    let j = choose|j: int| 0 <= j < w.len() && w[j] == x;
                    if j < v.len() {
                        assert(v[j] == x);
                    }
                }
                if v.to_set().contains(x) {
                    let j = choose|j: int| 0 <= j < v.len() && v[j] == x;
                    assert(w[j] == x);
                }
                if x == id@ {
                    assert(w[v.len() as int] == x);
                }
            }
            assert(w.to_set() =~= v.to_set().insert(id@));
            assert forall|i: int, j: int| 0 <= i < j < v.push(id@).len() implies v.push(id@)[i] != v.push(id@)[j] by {
                if j == v.len() {
                    assert(v.push(id@)[i] == v[i]);
                }
            }
        }
    }

    /// Unpin a document
    pub fn unpin(&mut self, id: &str)
        requires
            old(self).wf(),
        ensures
            final(self).wf(),
            final(self).pinned() == old(self).pinned().remove(id@),
            final(self).hits == old(self).hits,
            final(self).selected_index == old(self).selected_index,
            final(self).visible == old(self).visible,
    {
        let ghost v = ids_view(self.pinned_ids@);
        match self.find_pinned(id) {
            None => {
                proof {
                    assert forall|x: Seq<char>| v.to_set().contains(x) implies x != id@ by {
                        let j = choose|j: int| 0 <= j < v.len() && v[j] == x;
                        assert(self.pinned_ids@[j]@ == v[j]);
                    }
                    assert(v.to_set().remove(id@) =~= v.to_set());
                }
            },
            Some(k) => {
                self.pinned_ids.remove(k);
                proof {
                    let w = ids_view(self.pinned_ids@);
                    assert(w =~= v.remove(k as int));
                    assert forall|x: Seq<char>| #[trigger] w.to_set().contains(x) <==> v.to_set().remove(id@).contains(x) by {
                        if w.to_set().contains(x) {
                            let j = choose|j: int| 0 <= j < w.len() && w[j] == x;
                            if j < k {
                                assert(v[j] == x);
                                assert(j != k);
                            } else {
                                assert(v[j + 1] == x);
                            }
                            assert(v[k as int] == id@);
                        }
                        if v.to_set().remove(id@).contains(x) {
                            let j = choose|j: int| 0 <= j < v.len() && v[j] == x;
                            assert(j != k);
                            if j < k {
                                assert(w[j] == x);
                            } else {
                                assert(w[j - 1] == x);
                            }
                        }
                    }
                    assert(w.to_set() =~= v.to_set().remove(id@));
                    assert forall|i: int, j: int| 0 <= i < j < w.len() implies w[i] != w[j] by {
                        let a = if i < k { i } else { i + 1 };
                        let b = if j < k { j } else { j + 1 };
                        assert(w[i] == v[a] && w[j] == v[b]);
                    }
                }
            },
        }
    }

    /// Toggle pin state for a document
    pub fn toggle_pin(&mut self, id: &str)
        requires
            old(self).wf(),
        ensures
            final(self).wf(),
            final(self).pinned() == if old(self).pinned().contains(id@) {
                old(self).pinned().remove(id@)
            } else {
                old(self).pinned().insert(id@)
            },
            final(self).hits == old(self).hits,
            final(self).selected_index == old(self).selected_index,
    {
        if self.is_pinned(id) {
            self.unpin(id);
        } else {
            self.pin(to_owned(id));
        }
    }

    /// Get the number of pinned documents
    pub fn pinned_count(&self) -> (r: usize)
        ensures
            r == self.pinned_ids@.len(),
    {
        self.pinned_ids.len()
    }

    /// Get all pinned document IDs
    pub fn pinned_ids(&self) -> (r: &[String])
        ensures
            r@ == self.pinned_ids@,
    {
        self.pinned_ids.as_slice()
    }
}

} // verus!
