//! Section blocks: accent colour per tone and the height a body needs.

use vstd::prelude::*;
use crate::iocraft::{wrapped_line_count, wrapped_rows};
use crate::iocraft::theme::Theme;
use crate::theme::Color;

verus! {

#[derive(Debug, Clone, Copy, PartialEq, Eq)]
pub enum SectionTone {
    Intent,
    Actions,
    Result,
    Next,
}

impl SectionTone {
    pub fn accent(self, theme: Theme) -> (c: Color)
        ensures
            c == match self {
                SectionTone::Intent => theme.accent_purple,
                SectionTone::Actions => theme.accent_yellow,
                SectionTone::Result => theme.accent_green,
                SectionTone::Next => theme.accent_cyan,
            },
    {
        match self {
            SectionTone::Intent => theme.accent_purple,
            SectionTone::Actions => theme.accent_yellow,
            SectionTone::Result => theme.accent_green,
            SectionTone::Next => theme.accent_cyan,
        }
    }
}

impl Default for SectionTone {
    fn default() -> (t: Self)
        ensures
            t == SectionTone::Intent,
    {
        SectionTone::Intent
    }
}

/// Height of a block: body rows at `width - 2` columns plus two, at least `min_height`.
pub open spec fn block_height(content: Seq<char>, width: nat, min_height: nat) -> nat {
    let inner = if width >= 2 { (width - 2) as nat } else { 0 };
    let h = wrapped_rows(content, inner) % 65536 + 2;
    if h >= min_height { h } else { min_height }
}

pub fn estimate_height(content: &str, width: u16, min_height: u16) -> (h: u16)
    requires
        content@.len() < usize::MAX,
        wrapped_rows(content@, if width >= 2 { (width - 2) as nat } else { 0 }) % 65536 + 2 <= u16::MAX,
    ensures
        h == block_height(content@, width as nat, min_height as nat),
{
    let wrapped_lines = wrapped_line_count(content, width.saturating_sub(2));
    let rows = (wrapped_lines % 65536) as u16;
    let h = rows + 2;
    if h > min_height { h } else { min_height }
}

} // verus!
