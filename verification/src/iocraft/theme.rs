//! The iocraft colour theme (Oxocarbon Dark by default).

use vstd::prelude::*;
use crate::theme::Color;

verus! {

#[derive(Debug, Clone, Copy, PartialEq, Eq)]
pub struct Theme {
    pub accent_cyan: Color,
    pub accent_pink: Color,
    pub accent_purple: Color,
    pub accent_green: Color,
    pub accent_yellow: Color,
    pub accent_red: Color,
    pub bg_primary: Color,
    pub bg_secondary: Color,
    pub bg_tertiary: Color,
    pub bg_terminal: Color,
    pub text_primary: Color,
    pub text_secondary: Color,
    pub text_muted: Color,
    pub border_color: Color,
}

/// The Oxocarbon Dark palette.
pub open spec fn oxocarbon_theme() -> Theme {
    Theme {
        accent_cyan: Color::Rgb(0x33, 0xb1, 0xff),
        accent_pink: Color::Rgb(0xff, 0x7e, 0xb6),
        accent_purple: Color::Rgb(0xbe, 0x95, 0xff),
        accent_green: Color::Rgb(0x42, 0xbe, 0x65),
        accent_yellow: Color::Rgb(0xf1, 0xc2, 0x1b),
        accent_red: Color::Rgb(0xfa, 0x4d, 0x56),
        bg_primary: Color::Rgb(0x16, 0x16, 0x16),
        bg_secondary: Color::Rgb(0x1c, 0x1c, 0x1c),
        bg_tertiary: Color::Rgb(0x26, 0x26, 0x26),
        bg_terminal: Color::Rgb(0x0c, 0x0c, 0x0c),
        text_primary: Color::Rgb(0xf4, 0xf4, 0xf4),
        text_secondary: Color::Rgb(0xc6, 0xc6, 0xc6),
        text_muted: Color::Rgb(0x8d, 0x8d, 0x8d),
        border_color: Color::Rgb(0x39, 0x39, 0x39),
    }
}

impl Theme {
    pub fn rgb(r: u8, g: u8, b: u8) -> (c: Color)
        ensures
            c == Color::Rgb(r, g, b),
    {
        Color::Rgb(r, g, b)
    }
}

impl Default for Theme {
    fn default() -> (t: Self)
        ensures
            t == oxocarbon_theme(),
    {
        Theme {
            accent_cyan: Self::rgb(0x33, 0xb1, 0xff),
            accent_pink: Self::rgb(0xff, 0x7e, 0xb6),
            accent_purple: Self::rgb(0xbe, 0x95, 0xff),
            accent_green: Self::rgb(0x42, 0xbe, 0x65),
            accent_yellow: Self::rgb(0xf1, 0xc2, 0x1b),
            accent_red: Self::rgb(0xfa, 0x4d, 0x56),
            bg_primary: Self::rgb(0x16, 0x16, 0x16),
            bg_secondary: Self::rgb(0x1c, 0x1c, 0x1c),
            bg_tertiary: Self::rgb(0x26, 0x26, 0x26),
            bg_terminal: Self::rgb(0x0c, 0x0c, 0x0c),
            text_primary: Self::rgb(0xf4, 0xf4, 0xf4),
            text_secondary: Self::rgb(0xc6, 0xc6, 0xc6),
            text_muted: Self::rgb(0x8d, 0x8d, 0x8d),
            border_color: Self::rgb(0x39, 0x39, 0x39),
        }
    }
}

/// The theme a screen draws with: the one provided by an enclosing theme
/// provider, or the default palette.
pub fn resolve_theme(provided: Option<Theme>) -> (t: Theme)
    ensures
        t == match provided {
            Some(p) => p,
            None => oxocarbon_theme(),
        },
{
    match provided {
        Some(p) => p,
        None => Theme::default(),
    }
}

} // verus!
