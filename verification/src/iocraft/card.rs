//! Suggestion cards: how tall a card must be for its label.

use vstd::prelude::*;
use crate::iocraft::{wrapped_line_count, wrapped_rows};

verus! {

/// Smallest card: borders plus one label row.
pub const MIN_CARD_HEIGHT: u16 = 3;
/// Columns taken by the icon and its spacing before the label.
pub const LABEL_PREFIX_WIDTH: u16 = 3;

/// Label rows as a `u16` (`as` keeps the low 16 bits).
pub open spec fn label_rows_u16(label: Seq<char>, width: nat) -> nat {
    wrapped_rows(label, width) % 65536
}

/// Height of a card whose label wraps inside `area_width` columns.
pub open spec fn card_height(label: Seq<char>, area_width: nat) -> nat {
    let inner = if area_width >= 2 { (area_width - 2) as nat } else { 0 };
    if inner <= 3 {
        3
    } else {
        let h = label_rows_u16(label, (inner - 3) as nat) + 2;
        if h >= 3 { h } else { 3 }
    }
}

pub fn required_height(label: &str, area_width: u16) -> (h: u16)
    requires
        label@.len() < usize::MAX,
        area_width > 5 ==> label_rows_u16(label@, (area_width - 5) as nat) + 2 <= u16::MAX,
    ensures
        h == card_height(label@, area_width as nat),
{
    let inner_width = area_width.saturating_sub(2);
    if inner_width <= LABEL_PREFIX_WIDTH {
        return MIN_CARD_HEIGHT;
    }
    let label_width = inner_width - LABEL_PREFIX_WIDTH;
    let label_lines = wrapped_line_count(label, label_width);
    let rows = (label_lines % 65536) as u16;
    let h = rows + 2;
    if h > MIN_CARD_HEIGHT { h } else { MIN_CARD_HEIGHT }
}

} // verus!
