use thndrs_ui::theme::{Color, Theme, ThemeVariant};

#[test]
fn test_color_values() {
    let iceberg = Theme::palette(ThemeVariant::Iceberg);
    assert!(matches!(iceberg.bg, Color::Rgb(_, _, _)));
    assert!(matches!(iceberg.fg, Color::Rgb(_, _, _)));
    assert!(matches!(iceberg.panel_bg, Color::Rgb(_, _, _)));
}

#[test]
fn test_approval_mode_colors() {
    let palette = Theme::palette(ThemeVariant::Iceberg);
    assert_eq!(Theme::approval_mode_color(palette, "read-only"), palette.cyan);
    assert_eq!(Theme::approval_mode_color(palette, "auto"), palette.blue);
    assert_eq!(Theme::approval_mode_color(palette, "full-access"), palette.yellow);
    assert_eq!(Theme::approval_mode_color(palette, "unknown"), palette.muted);
}

#[test]
fn test_risk_level_colors() {
    let palette = Theme::palette(ThemeVariant::Iceberg);
    assert_eq!(Theme::risk_level_color(palette, "safe"), palette.green);
    assert_eq!(Theme::risk_level_color(palette, "risky"), palette.yellow);
    assert_eq!(Theme::risk_level_color(palette, "dangerous"), palette.red);
    assert_eq!(Theme::risk_level_color(palette, "unknown"), palette.muted);
}

#[test]
fn test_styles() {
    let palette = Theme::palette(ThemeVariant::Iceberg);
    let base = Theme::base(palette);
    assert_eq!(base.fg, Some(palette.fg));
    assert_eq!(base.bg, Some(palette.bg));

    let panel = Theme::panel(palette);
    assert_eq!(panel.fg, Some(palette.fg));
    assert_eq!(panel.bg, Some(palette.panel_bg));
}

#[test]
fn theme_names_parse_in_any_case() {
    assert_eq!(ThemeVariant::parse_str("ICEBERG"), Some(ThemeVariant::Iceberg));
    assert_eq!(ThemeVariant::parse_str("OxoCarbon"), Some(ThemeVariant::Oxocarbon));
    assert_eq!(ThemeVariant::parse_str("dracula"), None);
    for v in [ThemeVariant::Iceberg, ThemeVariant::Oxocarbon] {
        assert_eq!(ThemeVariant::parse_str(v.as_str()), Some(v));
    }
}
