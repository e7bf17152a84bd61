//! Evidence for the inspector: the chain of trajectory nodes behind a memory
//! assertion, the selected one, and the detail view's scroll.

use vstd::prelude::*;

verus! {

/// State for the Inspector evidence view; `N` is a trajectory node.
#[derive(Debug, Clone)]
pub struct EvidenceState<N> {
    /// Chain of evidence (trajectory nodes)
    pub nodes: Vec<N>,
    /// Selected node index in the list
    pub selected_index: usize,
    /// Vertical scroll offset for detail view
    pub detail_scroll: u16,
}

impl<N> EvidenceState<N> {
    /// Create a new evidence state
    pub fn new() -> (s: Self)
        ensures
            s.nodes@.len() == 0,
            s.selected_index == 0,
            s.detail_scroll == 0,
    {
        EvidenceState { nodes: Vec::new(), selected_index: 0, detail_scroll: 0 }
    }

    /// Set the evidence nodes
    pub fn set_nodes(&mut self, nodes: Vec<N>)
        ensures
            final(self).nodes == nodes,
            final(self).selected_index == 0,
            final(self).detail_scroll == 0,
    {
        self.nodes = nodes;
        self.selected_index = 0;
        self.detail_scroll = 0;
    }

    /// Clear evidence
    pub fn clear(&mut self)
        ensures
            final(self).nodes@.len() == 0,
            final(self).selected_index == 0,
            final(self).detail_scroll == 0,
    {
        self.nodes.clear();
        self.selected_index = 0;
        self.detail_scroll = 0;
    }

    /// Get the currently selected node
    pub fn selected_node(&self) -> (r: Option<&N>)
        ensures
            match r {
                Some(n) => self.selected_index < self.nodes@.len() && *n == self.nodes@[self.selected_index as int],
                None => self.selected_index >= self.nodes@.len(),
            },
    {
        if self.selected_index < self.nodes.len() {
            Some(&self.nodes[self.selected_index])
        } else {
            None
        }
    }

    /// Select the next node, wrapping to the first, with the details at the top
    pub fn select_next(&mut self)
        requires
            old(self).selected_index < usize::MAX,
        ensures
            old(self).nodes@.len() > 0 ==> final(self).selected_index == (old(self).selected_index + 1) % (old(self).nodes@.len() as int)
                && final(self).detail_scroll == 0,
            old(self).nodes@.len() == 0 ==> final(self).selected_index == old(self).selected_index
                && final(self).detail_scroll == old(self).detail_scroll,
            final(self).nodes == old(self).nodes,
    {
        if self.nodes.len() > 0 {
            self.selected_index = (self.selected_index + 1) % self.nodes.len();
            self.detail_scroll = 0;
        }
    }

    /// Select the previous node, wrapping to the last, with the details at the top
    pub fn select_prev(&mut self)
        ensures
            old(self).nodes@.len() > 0 ==> final(self).selected_index == (if old(self).selected_index == 0 {
                old(self).nodes@.len() - 1
            } else {
                old(self).selected_index - 1
            }) && final(self).detail_scroll == 0,
            old(self).nodes@.len() == 0 ==> final(self).selected_index == old(self).selected_index
                && final(self).detail_scroll == old(self).detail_scroll,
            final(self).nodes == old(self).nodes,
    {
        if self.nodes.len() > 0 {
            self.selected_index = if self.selected_index == 0 { self.nodes.len() - 1 } else { self.selected_index - 1 };
            self.detail_scroll = 0;
        }
    }

    /// Scroll detail view down
    pub fn scroll_down(&mut self)
        ensures
            final(self).detail_scroll == if old(self).detail_scroll < u16::MAX { old(self).detail_scroll + 1 } else { u16::MAX as int },
            final(self).nodes == old(self).nodes,
            final(self).selected_index == old(self).selected_index,
    {
        self.detail_scroll = self.detail_scroll.saturating_add(1);
    }

    /// Scroll detail view up
    pub fn scroll_up(&mut self)
        ensures
            final(self).detail_scroll == if old(self).detail_scroll > 0 { old(self).detail_scroll - 1 } else { 0 },
            final(self).nodes == old(self).nodes,
            final(self).selected_index == old(self).selected_index,
    {
        self.detail_scroll = self.detail_scroll.saturating_sub(1);
    }
}

} // verus!
