use thndrs_ui::iocraft::chat::{scroll_page_down, scroll_page_up};
use thndrs_ui::iocraft::wrapped_line_count;
use thndrs_ui::iocraft::card::required_height;
use thndrs_ui::iocraft::section_block::{estimate_height, SectionTone};
use thndrs_ui::iocraft::theme::Theme;
use thndrs_ui::theme::Color;
use thndrs_ui::iocraft::chat::{hint_tokens, visible_transcript_lines, RenderedLine};
use thndrs_ui::iocraft::hint_bar::HintToken;

#[test]
fn wrapped_line_count_returns_one_for_empty_content() {
    assert_eq!(wrapped_line_count("", 40), 1);
}

#[test]
fn wrapped_line_count_respects_newlines_and_width() {
    assert_eq!(wrapped_line_count("abcd\nefgh", 2), 4);
}

#[test]
fn card_required_height_respects_minimums() {
    assert_eq!(required_height("hello", 0), 3);
    assert_eq!(required_height("hello", 5), 3);
}

#[test]
fn card_required_height_grows_for_wrapped_labels() {
    assert!(required_height("this wraps across multiple lines", 10) > 3);
}

#[test]
fn section_tone_maps_to_theme_accents() {
    let theme = Theme::default();
    assert_eq!(SectionTone::Intent.accent(theme), theme.accent_purple);
    assert_eq!(SectionTone::Actions.accent(theme), theme.accent_yellow);
    assert_eq!(SectionTone::Result.accent(theme), theme.accent_green);
    assert_eq!(SectionTone::Next.accent(theme), theme.accent_cyan);
}

#[test]
fn section_estimate_height_obeys_minimum() {
    assert_eq!(estimate_height("ok", 20, 4), 4);
}

#[test]
fn default_theme_matches_oxocarbon_palette() {
    let theme = Theme::default();
    assert_eq!(theme.accent_cyan, Color::Rgb(0x33, 0xb1, 0xff));
    assert_eq!(theme.bg_primary, Color::Rgb(0x16, 0x16, 0x16));
    assert_eq!(theme.text_primary, Color::Rgb(0xf4, 0xf4, 0xf4));
}

#[test]
fn visible_transcript_lines_tracks_scroll_offset() {
    let transcript = vec![
        RenderedLine::new("one".to_string(), Color::White),
        RenderedLine::new("two".to_string(), Color::White),
        RenderedLine::new("three".to_string(), Color::White),
        RenderedLine::new("four".to_string(), Color::White),
    ];

    let visible = visible_transcript_lines(&transcript, 2, 1);
    let texts = visible.into_iter().map(|line| line.text).collect::<Vec<_>>();
    assert_eq!(texts, vec!["two".to_string(), "three".to_string()]);
}

#[test]
fn hint_tokens_switch_for_file_finder_mode() {
    let tokens = hint_tokens(true);
    assert!(
        tokens
            .iter()
            .any(|token| matches!(token, HintToken::Key(value) if value == "Esc"))
    );
}

#[test]
fn prefixed_lines_wrap_beside_their_prefixes() {
    let lines = thndrs_ui::iocraft::chat::prefixed_lines("> ", "  ", "abcdef\ngh", 5, Color::Green);
    let texts: Vec<&str> = lines.iter().map(|l| l.text.as_str()).collect();
    assert_eq!(texts, vec!["> abc", "  def", "  gh"]);
    assert!(lines.iter().all(|l| l.color == Color::Green));
    // a prefix as wide as the row still leaves one column
    let narrow = thndrs_ui::iocraft::chat::prefixed_lines(">>>", "...", "xy", 2, Color::Red);
    let texts: Vec<&str> = narrow.iter().map(|l| l.text.as_str()).collect();
    assert_eq!(texts, vec![">>>x", "...y"]);
}

#[test]
fn chat_page_keys_scroll_by_a_page_within_the_transcript() {
    assert_eq!(scroll_page_up(0, 100, 10), 9);
    assert_eq!(scroll_page_up(85, 100, 10), 90);
    assert_eq!(scroll_page_up(0, 5, 10), 0);
    assert_eq!(scroll_page_up(usize::MAX - 1, usize::MAX, 10), usize::MAX - 10);
    assert_eq!(scroll_page_down(20, 10), 11);
    assert_eq!(scroll_page_down(3, 10), 0);
    assert_eq!(scroll_page_down(3, 1), 2);
}
