//! Theme variants and their colour palettes.

use vstd::prelude::*;
use crate::strs::str_eq;
use crate::files::tree::ascii_lower;

verus! {

/// A terminal colour.
#[derive(Debug, Clone, Copy, PartialEq, Eq)]
pub enum Color {
    Reset,
    Black,
    Red,
    Green,
    Yellow,
    Blue,
    Magenta,
    Cyan,
    Gray,
    White,
    Rgb(u8, u8, u8),
}

/// Theme variant options supported by Thunderus.
#[derive(Debug, Clone, Copy, PartialEq, Eq)]
pub enum ThemeVariant {
    Iceberg,
    Oxocarbon,
}

/// Unicode lowercase mapping of a string, as `str::to_lowercase` computes it.
pub uninterp spec fn unicode_lowercase(s: Seq<char>) -> Seq<char>;

/// Every char of `s` is ASCII.
pub open spec fn all_ascii(s: Seq<char>) -> bool {
    forall|i: int| 0 <= i < s.len() ==> (#[trigger] s[i] as u32) < 128
}

/// `str::to_lowercase`: the string with every char replaced by its Unicode
/// lowercase mapping. The mapping itself (Unicode tables, context-dependent
/// sigma) is left to the name `unicode_lowercase`; on ASCII text it is the
/// ASCII lowercasing, as std documents for ASCII chars.
#[verifier::external_body]
fn str_to_lowercase(s: &str) -> (r: String)
    ensures
        r@ == unicode_lowercase(s@),
        all_ascii(s@) ==> r@ == ascii_lower(s@),
{
    s.to_lowercase()
}

impl ThemeVariant {
    pub fn as_str(&self) -> (r: &'static str)
        ensures
            r@ == variant_name(*self),
    {
        match self {
            ThemeVariant::Iceberg => "iceberg",
            ThemeVariant::Oxocarbon => "oxocarbon",
        }
    }

    /// Parses a variant name, ignoring case.
    pub fn parse_str(value: &str) -> (r: Option<Self>)
        ensures
            r == parse_lowered(unicode_lowercase(value@)),
            all_ascii(value@) ==> r == parse_lowered(ascii_lower(value@)),
    {
        let lowered = str_to_lowercase(value);
        parse_lowered_exec(lowered.as_str())
    }
}

/// The name of a variant, as `as_str` gives it.
pub open spec fn variant_name(v: ThemeVariant) -> Seq<char> {
    match v {
        ThemeVariant::Iceberg => "iceberg"@,
        ThemeVariant::Oxocarbon => "oxocarbon"@,
    }
}

/// Variant named by an already lowercased string.
pub open spec fn parse_lowered(s: Seq<char>) -> Option<ThemeVariant> {
    if s == "iceberg"@ {
        Some(ThemeVariant::Iceberg)
    } else if s == "oxocarbon"@ {
        Some(ThemeVariant::Oxocarbon)
    } else {
        None
    }
}

/// The variant named by `s`, which is compared exactly.
pub fn parse_lowered_exec(s: &str) -> (r: Option<ThemeVariant>)
    ensures
        r == parse_lowered(s@),
{
    if str_eq(s, "iceberg") {
        Some(ThemeVariant::Iceberg)
    } else if str_eq(s, "oxocarbon") {
        Some(ThemeVariant::Oxocarbon)
    } else {
        None
    }
}

/// Color palette for a given theme variant.
#[derive(Debug, Clone, Copy, PartialEq, Eq)]
pub struct ThemePalette {
    pub bg: Color,
    pub fg: Color,
    pub panel_bg: Color,
    pub active: Color,
    pub highlight: Color,
    pub comment: Color,
    pub blue: Color,
    pub cyan: Color,
    pub purple: Color,
    pub green: Color,
    pub yellow: Color,
    pub red: Color,
    pub muted: Color,
    pub border: Color,
    pub black: Color,
}

/// Foreground and background of a piece of text; `None` keeps what is underneath.
#[derive(Debug, Clone, Copy, PartialEq, Eq)]
pub struct Style {
    pub fg: Option<Color>,
    pub bg: Option<Color>,
}

/// Theme helpers for Thunderus TUI.
pub struct Theme;

pub open spec fn iceberg_palette() -> ThemePalette {
    ThemePalette {
        bg: Color::Rgb(22, 24, 33),
        fg: Color::Rgb(198, 200, 209),
        panel_bg: Color::Rgb(30, 33, 50),
        active: Color::Rgb(39, 44, 66),
        highlight: Color::Rgb(39, 44, 66),
        comment: Color::Rgb(107, 112, 137),
        blue: Color::Rgb(132, 160, 198),
        cyan: Color::Rgb(137, 184, 194),
        purple: Color::Rgb(160, 147, 199),
        green: Color::Rgb(180, 190, 130),
        yellow: Color::Rgb(226, 164, 120),
        red: Color::Rgb(226, 120, 120),
        muted: Color::Rgb(107, 112, 137),
        border: Color::Rgb(107, 112, 137),
        black: Color::Rgb(22, 24, 33),
    }
}

pub open spec fn oxocarbon_palette() -> ThemePalette {
    ThemePalette {
        bg: Color::Rgb(22, 22, 22),
        fg: Color::Rgb(242, 244, 248),
        panel_bg: Color::Rgb(38, 38, 38),
        active: Color::Rgb(57, 57, 57),
        highlight: Color::Rgb(57, 57, 57),
        comment: Color::Rgb(82, 82, 82),
        blue: Color::Rgb(120, 169, 255),
        cyan: Color::Rgb(8, 189, 186),
        purple: Color::Rgb(190, 149, 255),
        green: Color::Rgb(66, 190, 101),
        yellow: Color::Rgb(255, 126, 182),
        red: Color::Rgb(238, 83, 150),
        muted: Color::Rgb(82, 82, 82),
        border: Color::Rgb(82, 82, 82),
        black: Color::Rgb(22, 22, 22),
    }
}

pub open spec fn palette_of(variant: ThemeVariant) -> ThemePalette {
    match variant {
        ThemeVariant::Iceberg => iceberg_palette(),
        ThemeVariant::Oxocarbon => oxocarbon_palette(),
    }
}

/// Colour for the first of `keys` that `s` equals, else `fallback`.
pub open spec fn pick3(s: Seq<char>, k1: Seq<char>, c1: Color, k2: Seq<char>, c2: Color, k3: Seq<char>, c3: Color, fallback: Color) -> Color {
    if s == k1 { c1 } else if s == k2 { c2 } else if s == k3 { c3 } else { fallback }
}

impl Theme {
    pub fn palette(variant: ThemeVariant) -> (p: ThemePalette)
        ensures
            p == palette_of(variant),
    {
        match variant {
            ThemeVariant::Iceberg => ThemePalette {
                bg: Color::Rgb(22, 24, 33),
                fg: Color::Rgb(198, 200, 209),
                panel_bg: Color::Rgb(30, 33, 50),
                active: Color::Rgb(39, 44, 66),
                highlight: Color::Rgb(39, 44, 66),
                comment: Color::Rgb(107, 112, 137),
                blue: Color::Rgb(132, 160, 198),
                cyan: Color::Rgb(137, 184, 194),
                purple: Color::Rgb(160, 147, 199),
                green: Color::Rgb(180, 190, 130),
                yellow: Color::Rgb(226, 164, 120),
                red: Color::Rgb(226, 120, 120),
                muted: Color::Rgb(107, 112, 137),
                border: Color::Rgb(107, 112, 137),
                black: Color::Rgb(22, 24, 33),
            },
            ThemeVariant::Oxocarbon => ThemePalette {
                bg: Color::Rgb(22, 22, 22),
                fg: Color::Rgb(242, 244, 248),
                panel_bg: Color::Rgb(38, 38, 38),
                active: Color::Rgb(57, 57, 57),
                highlight: Color::Rgb(57, 57, 57),
                comment: Color::Rgb(82, 82, 82),
                blue: Color::Rgb(120, 169, 255),
                cyan: Color::Rgb(8, 189, 186),
                purple: Color::Rgb(190, 149, 255),
                green: Color::Rgb(66, 190, 101),
                yellow: Color::Rgb(255, 126, 182),
                red: Color::Rgb(238, 83, 150),
                muted: Color::Rgb(82, 82, 82),
                border: Color::Rgb(82, 82, 82),
                black: Color::Rgb(22, 22, 22),
            },
        }
    }

    pub fn base(palette: ThemePalette) -> (s: Style)
        ensures s == (Style { fg: Some(palette.fg), bg: Some(palette.bg) }),
    {
        Style { fg: Some(palette.fg), bg: Some(palette.bg) }
    }

    pub fn primary(palette: ThemePalette) -> (s: Style)
        ensures s == (Style { fg: Some(palette.blue), bg: Some(palette.bg) }),
    {
        Style { fg: Some(palette.blue), bg: Some(palette.bg) }
    }

    pub fn success(palette: ThemePalette) -> (s: Style)
        ensures s == (Style { fg: Some(palette.green), bg: Some(palette.bg) }),
    {
        Style { fg: Some(palette.green), bg: Some(palette.bg) }
    }

    pub fn warning(palette: ThemePalette) -> (s: Style)
        ensures s == (Style { fg: Some(palette.yellow), bg: Some(palette.bg) }),
    {
        Style { fg: Some(palette.yellow), bg: Some(palette.bg) }
    }

    pub fn error(palette: ThemePalette) -> (s: Style)
        ensures s == (Style { fg: Some(palette.red), bg: Some(palette.bg) }),
    {
        Style { fg: Some(palette.red), bg: Some(palette.bg) }
    }

    pub fn muted(palette: ThemePalette) -> (s: Style)
        ensures s == (Style { fg: Some(palette.muted), bg: Some(palette.bg) }),
    {
        Style { fg: Some(palette.muted), bg: Some(palette.bg) }
    }

    pub fn panel(palette: ThemePalette) -> (s: Style)
        ensures s == (Style { fg: Some(palette.fg), bg: Some(palette.panel_bg) }),
    {
        Style { fg: Some(palette.fg), bg: Some(palette.panel_bg) }
    }

    pub fn border(palette: ThemePalette) -> (s: Style)
        ensures s == (Style { fg: Some(palette.border), bg: None }),
    {
        Style { fg: Some(palette.border), bg: None }
    }

    pub fn active(palette: ThemePalette) -> (s: Style)
        ensures s == (Style { fg: Some(palette.fg), bg: Some(palette.active) }),
    {
        Style { fg: Some(palette.fg), bg: Some(palette.active) }
    }

    pub fn approval_mode_color(palette: ThemePalette, mode: &str) -> (c: Color)
        ensures
            c == pick3(mode@, "read-only"@, palette.cyan, "auto"@, palette.blue, "full-access"@, palette.yellow, palette.muted),
    {
        if str_eq(mode, "read-only") {
            palette.cyan
        } else if str_eq(mode, "auto") {
            palette.blue
        } else if str_eq(mode, "full-access") {
            palette.yellow
        } else {
            palette.muted
        }
    }

    pub fn risk_level_color(palette: ThemePalette, risk: &str) -> (c: Color)
        ensures
            c == pick3(risk@, "safe"@, palette.green, "risky"@, palette.yellow, "dangerous"@, palette.red, palette.muted),
    {
        if str_eq(risk, "safe") {
            palette.green
        } else if str_eq(risk, "risky") {
            palette.yellow
        } else if str_eq(risk, "dangerous") {
            palette.red
        } else {
            palette.muted
        }
    }

    pub fn sandbox_mode_color(palette: ThemePalette, mode: &str) -> (c: Color)
        ensures
            c == pick3(mode@, "policy"@, palette.green, "os"@, palette.yellow, "none"@, palette.red, palette.muted),
    {
        if str_eq(mode, "policy") {
            palette.green
        } else if str_eq(mode, "os") {
            palette.yellow
        } else if str_eq(mode, "none") {
            palette.red
        } else {
            palette.muted
        }
    }

    pub fn verbosity_color(palette: ThemePalette, level: &str) -> (c: Color)
        ensures
            c == pick3(level@, "quiet"@, palette.muted, "default"@, palette.blue, "verbose"@, palette.purple, palette.muted),
    {
        if str_eq(level, "quiet") {
            palette.muted
        } else if str_eq(level, "default") {
            palette.blue
        } else if str_eq(level, "verbose") {
            palette.purple
        } else {
            palette.muted
        }
    }
}

impl Default for ThemePalette {
    fn default() -> (p: Self)
        ensures
            p == iceberg_palette(),
    {
        Theme::palette(ThemeVariant::Iceberg)
    }
}

} // verus!
