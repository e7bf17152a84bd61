//! Scroll window over a list of `total` rows, showing `page_size` rows at a time.

use vstd::prelude::*;

verus! {

/// A scroll window: the first visible row is `offset`.
#[derive(Debug, Clone, Default, PartialEq, Eq)]
pub struct ScrollState {
    pub offset: usize,
    pub page_size: usize,
    pub total: usize,
}

/// Largest offset that still fills a page: `total - page_size`, or 0.
pub open spec fn max_offset_of(total: nat, page_size: nat) -> nat {
    if total >= page_size { (total - page_size) as nat } else { 0 }
}

pub open spec fn min_nat(a: nat, b: nat) -> nat {
    if a <= b { a } else { b }
}

/// `a - b`, stopping at 0.
pub open spec fn sat_sub(a: nat, b: nat) -> nat {
    if a >= b { (a - b) as nat } else { 0 }
}

/// `a + b`, stopping at `usize::MAX`.
pub open spec fn sat_add_usize(a: nat, b: nat) -> nat {
    if a + b <= usize::MAX { a + b } else { usize::MAX as nat }
}

/// Offset chosen by `ensure_visible` before the final clamp.
pub open spec fn visible_offset(offset: nat, page_size: nat, total: nat, index: nat) -> nat {
    if page_size == 0 {
        min_nat(index, max_offset_of(total, page_size))
    } else {
        let raw = if index < offset {
            index
        } else if index > sat_add_usize(offset, sat_sub(page_size, 1)) {
            sat_sub(sat_add_usize(index, 1), page_size)
        } else {
            offset
        };
        min_nat(raw, max_offset_of(total, page_size))
    }
}

impl ScrollState {
    pub open spec fn max_off(&self) -> nat {
        max_offset_of(self.total as nat, self.page_size as nat)
    }

    /// The offset never runs past the last full page.
    pub open spec fn wf(&self) -> bool {
        self.offset <= self.max_off()
    }

    pub fn with_viewport(total: usize, page_size: usize) -> (s: Self)
        ensures
            s.offset == 0,
            s.page_size == page_size,
            s.total == total,
            s.wf(),
    {
        let mut state = ScrollState { offset: 0, page_size, total };
        state.clamp();
        state
    }

    pub fn set_page_size(&mut self, page_size: usize)
        ensures
            final(self).page_size == page_size,
            final(self).total == old(self).total,
            final(self).offset == min_nat(old(self).offset as nat, max_offset_of(old(self).total as nat, page_size as nat)),
            final(self).wf(),
    {
        self.page_size = page_size;
        self.clamp();
    }

    pub fn set_total(&mut self, total: usize)
        ensures
            final(self).total == total,
            final(self).page_size == old(self).page_size,
            final(self).offset == min_nat(old(self).offset as nat, max_offset_of(total as nat, old(self).page_size as nat)),
            final(self).wf(),
    {
        self.total = total;
        self.clamp();
    }

    pub fn set_viewport(&mut self, total: usize, page_size: usize)
        ensures
            final(self).total == total,
            final(self).page_size == page_size,
            final(self).offset == min_nat(old(self).offset as nat, max_offset_of(total as nat, page_size as nat)),
            final(self).wf(),
    {
        self.total = total;
        self.page_size = page_size;
        self.clamp();
    }

    pub fn set_offset(&mut self, offset: usize)
        ensures
            final(self).total == old(self).total,
            final(self).page_size == old(self).page_size,
            final(self).offset == min_nat(offset as nat, old(self).max_off()),
            final(self).wf(),
    {
        self.offset = offset;
        self.clamp();
    }

    pub fn max_offset(&self) -> (r: usize)
        ensures
            r == self.max_off(),
    {
        self.total.saturating_sub(self.page_size)
    }

    pub fn clamp(&mut self)
        ensures
            final(self).total == old(self).total,
            final(self).page_size == old(self).page_size,
            final(self).offset == min_nat(old(self).offset as nat, old(self).max_off()),
            final(self).wf(),
    {
        let m = self.max_offset();
        if self.offset > m {
            self.offset = m;
        }
    }

    pub fn scroll_up(&mut self, n: usize)
        ensures
            final(self).total == old(self).total,
            final(self).page_size == old(self).page_size,
            final(self).offset == sat_sub(old(self).offset as nat, n as nat),
            old(self).wf() ==> final(self).wf(),
    {
        self.offset = self.offset.saturating_sub(n);
    }

    pub fn scroll_down(&mut self, n: usize)
        ensures
            final(self).total == old(self).total,
            final(self).page_size == old(self).page_size,
            final(self).offset == min_nat(sat_add_usize(old(self).offset as nat, n as nat), old(self).max_off()),
            final(self).wf(),
    {
        let m = self.max_offset();
        let next = self.offset.saturating_add(n);
        self.offset = if next < m { next } else { m };
    }

    pub fn page_up(&mut self)
        ensures
            final(self).total == old(self).total,
            final(self).page_size == old(self).page_size,
            final(self).offset == sat_sub(old(self).offset as nat, if old(self).page_size == 0 { 1 } else { old(self).page_size as nat }),
            old(self).wf() ==> final(self).wf(),
    {
        let amount = if self.page_size > 1 { self.page_size } else { 1 };
        self.scroll_up(amount);
    }

    pub fn page_down(&mut self)
        ensures
            final(self).total == old(self).total,
            final(self).page_size == old(self).page_size,
            final(self).offset == min_nat(
                sat_add_usize(old(self).offset as nat, if old(self).page_size == 0 { 1 } else { old(self).page_size as nat }),
                old(self).max_off(),
            ),
            final(self).wf(),
    {
        let amount = if self.page_size > 1 { self.page_size } else { 1 };
        self.scroll_down(amount);
    }

    pub fn ensure_visible(&mut self, index: usize)
        ensures
            final(self).total == old(self).total,
            final(self).page_size == old(self).page_size,
            final(self).offset == visible_offset(old(self).offset as nat, old(self).page_size as nat, old(self).total as nat, index as nat),
            final(self).wf(),
            // the requested row is on screen afterwards
            old(self).page_size > 0 && index < old(self).total ==>
                final(self).offset <= index < final(self).offset + old(self).page_size,
    {
        if self.page_size == 0 {
            let m = self.max_offset();
            self.offset = if index < m { index } else { m };
            return;
        }
        if index < self.offset {
            self.offset = index;
        } else {
            let bottom = self.offset.saturating_add(self.page_size.saturating_sub(1));
            if index > bottom {
                self.offset = index.saturating_add(1).saturating_sub(self.page_size);
            }
        }
        self.clamp();
    }
}

} // verus!
