//! Sidebar sections and which of them are collapsed.

use vstd::prelude::*;

verus! {

/// Sidebar section for collapse/expand
#[derive(Debug, Clone, Copy, PartialEq, Eq)]
pub enum SidebarSection {
    TokenUsage,
    Events,
    Modified,
    Diffs,
    Integrations,
}

/// The sections in display order.
pub open spec fn section_at(i: int) -> SidebarSection {
    if i == 0 {
        SidebarSection::TokenUsage
    } else if i == 1 {
        SidebarSection::Events
    } else if i == 2 {
        SidebarSection::Modified
    } else if i == 3 {
        SidebarSection::Diffs
    } else {
        SidebarSection::Integrations
    }
}

impl SidebarSection {
    pub fn all() -> (r: [SidebarSection; 5])
        ensures
            forall|i: int| 0 <= i < 5 ==> #[trigger] r@[i] == section_at(i),
    {
        [
            SidebarSection::TokenUsage,
            SidebarSection::Events,
            SidebarSection::Modified,
            SidebarSection::Diffs,
            SidebarSection::Integrations,
        ]
    }

    pub fn name(&self) -> (r: &'static str)
        ensures
            r@ == match self {
                SidebarSection::TokenUsage => "Token Usage"@,
                SidebarSection::Events => "Events"@,
                SidebarSection::Modified => "Modified"@,
                SidebarSection::Diffs => "Diffs"@,
                SidebarSection::Integrations => "Integrations"@,
            },
    {
        match self {
            SidebarSection::TokenUsage => "Token Usage",
            SidebarSection::Events => "Events",
            SidebarSection::Modified => "Modified",
            SidebarSection::Diffs => "Diffs",
            SidebarSection::Integrations => "Integrations",
        }
    }
}

/// Collapse state for sidebar sections
#[derive(Debug, Clone, Default)]
pub struct SidebarCollapseState {
    token_usage_collapsed: bool,
    events_collapsed: bool,
    modified_collapsed: bool,
    diffs_collapsed: bool,
    integrations_collapsed: bool,
}

impl SidebarCollapseState {
    /// Whether `section` is collapsed.
    pub closed spec fn collapsed(&self, section: SidebarSection) -> bool {
        match section {
            SidebarSection::TokenUsage => self.token_usage_collapsed,
            SidebarSection::Events => self.events_collapsed,
            SidebarSection::Modified => self.modified_collapsed,
            SidebarSection::Diffs => self.diffs_collapsed,
            SidebarSection::Integrations => self.integrations_collapsed,
        }
    }

    /// Position (in display order) of the first expanded section, or 5 if all are collapsed.
    pub open spec fn first_expanded(&self) -> int {
        if !self.collapsed(section_at(0)) {
            0
        } else if !self.collapsed(section_at(1)) {
            1
        } else if !self.collapsed(section_at(2)) {
            2
        } else if !self.collapsed(section_at(3)) {
            3
        } else if !self.collapsed(section_at(4)) {
            4
        } else {
            5
        }
    }

    /// Every section but `section` keeps its state, and `section` is flipped.
    pub open spec fn flipped(&self, other: &Self, section: SidebarSection) -> bool {
        forall|s: SidebarSection| #[trigger] self.collapsed(s) == if s == section { !other.collapsed(s) } else { other.collapsed(s) }
    }

    pub open spec fn same(&self, other: &Self) -> bool {
        forall|s: SidebarSection| #[trigger] self.collapsed(s) == other.collapsed(s)
    }

    /// All sections expanded.
    pub fn new() -> (s: Self)
        ensures
            forall|sec: SidebarSection| !#[trigger] s.collapsed(sec),
    {
        SidebarCollapseState {
            token_usage_collapsed: false,
            events_collapsed: false,
            modified_collapsed: false,
            diffs_collapsed: false,
            integrations_collapsed: false,
        }
    }

    pub fn is_collapsed(&self, section: SidebarSection) -> (r: bool)
        ensures
            r == self.collapsed(section),
    {
        match section {
            SidebarSection::TokenUsage => self.token_usage_collapsed,
            SidebarSection::Events => self.events_collapsed,
            SidebarSection::Modified => self.modified_collapsed,
            SidebarSection::Diffs => self.diffs_collapsed,
            SidebarSection::Integrations => self.integrations_collapsed,
        }
    }

    pub fn toggle(&mut self, section: SidebarSection)
        ensures
            final(self).flipped(old(self), section),
    {
        match section {
            SidebarSection::TokenUsage => self.token_usage_collapsed = !self.token_usage_collapsed,
            SidebarSection::Events => self.events_collapsed = !self.events_collapsed,
            SidebarSection::Modified => self.modified_collapsed = !self.modified_collapsed,
            SidebarSection::Diffs => self.diffs_collapsed = !self.diffs_collapsed,
            SidebarSection::Integrations => self.integrations_collapsed = !self.integrations_collapsed,
        }
    }

    fn first_expanded_exec(&self) -> (r: usize)
        ensures
            r == self.first_expanded(),
    {
        let sections = SidebarSection::all();
        let mut i: usize = 0;
        while i < 5
            invariant
                i <= 5,
                forall|j: int| 0 <= j < 5 ==> #[trigger] sections@[j] == section_at(j),
                forall|j: int| 0 <= j < i ==> self.collapsed(#[trigger] section_at(j)),
            decreases 5 - i,
        {
            if !self.is_collapsed(sections[i]) {
                return i;
            }
            i = i + 1;
        }
        5
    }

    /// Flips the section just before the first expanded one (wrapping to the last).
    pub fn collapse_prev(&mut self)
        ensures
            old(self).first_expanded() == 5 ==> final(self).same(old(self)),
            old(self).first_expanded() < 5 ==> final(self).flipped(old(self), section_at(
                if old(self).first_expanded() == 0 { 4 } else { old(self).first_expanded() - 1 },
            )),
    {
        let sections = SidebarSection::all();
        let pos = self.first_expanded_exec();
        if pos < 5 {
            let new_pos = if pos == 0 { 4 } else { pos - 1 };
            self.toggle(sections[new_pos]);
        }
    }

    /// Flips the section just after the first expanded one (wrapping to the first).
    pub fn expand_next(&mut self)
        ensures
            old(self).first_expanded() == 5 ==> final(self).same(old(self)),
            old(self).first_expanded() < 5 ==> final(self).flipped(old(self), section_at(
                (old(self).first_expanded() + 1) % 5,
            )),
    {
        let sections = SidebarSection::all();
        let pos = self.first_expanded_exec();
        if pos < 5 {
            let new_pos = (pos + 1) % 5;
            self.toggle(sections[new_pos]);
        }
    }
}

} // verus!
