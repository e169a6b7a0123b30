use ytmtui::ui::marquee::marquee_spans;
use ytmtui::ui::width::{display_width, tail_chars, take_width, truncate_chars};

#[test]
fn display_width_counts_wide_characters_as_two_columns() {
    // "ミク" is two CJK characters, 2 columns each: 4 columns, not 2.
    assert_eq!(display_width("ミク"), 4);
    assert_eq!(display_width("abc"), 3);
}

#[test]
fn truncate_chars_never_splits_a_wide_character() {
    // Each character is 2 columns wide; a budget of 5 only fits two of them
    // plus the 1-column ellipsis (2 + 2 + 1 = 5), not a third half-rendered
    // character.
    let out = truncate_chars("初音ミク", 5);
    assert_eq!(out, "初音…");
    assert!(display_width(&out) <= 5);
}

#[test]
fn take_width_hard_truncates_by_display_width_without_an_ellipsis() {
    let out = take_width("初音ミク", 5);
    assert_eq!(out, "初音");
    assert!(display_width(&out) <= 5);
}

#[test]
fn text_that_fits_is_returned_whole() {
    assert_eq!(truncate_chars("Yellow", 6), "Yellow");
    assert_eq!(take_width("Yellow", 10), "Yellow");
    assert_eq!(tail_chars("Yellow", 6), "Yellow");
}

#[test]
fn a_zero_budget_truncates_to_nothing() {
    assert_eq!(truncate_chars("abc", 0), "");
    assert_eq!(take_width("abc", 0), "");
    assert_eq!(tail_chars("abc", 0), "");
}

#[test]
fn ascii_titles_are_cut_with_one_column_left_for_the_ellipsis() {
    assert_eq!(truncate_chars("Supercalifragilistic", 6), "Super…");
    assert_eq!(display_width("Super…"), 6);
}

#[test]
fn tail_keeps_the_last_columns_without_splitting_wide_characters() {
    assert_eq!(tail_chars("search query", 5), "query");
    assert_eq!(tail_chars("初音ミク", 5), "ミク");
}

fn marquee_text(parts: &[(&str, u32)], width: usize, step: usize) -> String {
    let parts: Vec<(String, u32)> = parts.iter().map(|(t, s)| (t.to_string(), *s)).collect();
    marquee_spans(&parts, 0, width, step).iter().map(|(text, _)| text.as_str()).collect()
}

#[test]
fn marquee_slides_one_column_per_step_and_wraps_with_a_gap() {
    let bold = 1;
    let dim = 0;
    let parts = [("ABCDE", bold), ("xy", dim)];
    let text_at = |step: usize| marquee_text(&parts, 5, step);
    // A full cycle: "ABCDExy" plus three columns of gap = 10 steps.
    assert_eq!(text_at(0), "ABCDE");
    assert_eq!(text_at(1), "BCDEx");
    assert_eq!(text_at(2), "CDExy");
    assert_eq!(text_at(3), "DExy ");
    assert_eq!(text_at(7), "   AB", "wraps around through the gap");
    assert_eq!(text_at(8), "  ABC");
    assert_eq!(text_at(10), "ABCDE", "cycle length is text + gap");

    // Styles kept per part: at step 1, "BCDE" bold and "x" dim.
    let owned: Vec<(String, u32)> = parts.iter().map(|(t, s)| (t.to_string(), *s)).collect();
    let spans = marquee_spans(&owned, 0, 5, 1);
    assert_eq!(spans.len(), 2);
    assert_eq!(spans[0], ("BCDE".to_string(), bold));
    assert_eq!(spans[1].0, "x");

    // A wide (two-column) character is never cut in half: the orphan
    // column becomes a space.
    let wide = [("A漢B", dim)];
    assert_eq!(marquee_text(&wide, 3, 0), "A漢");
    assert_eq!(marquee_text(&wide, 3, 2), " B ", "half of a wide char becomes a space");
}

#[test]
fn an_empty_window_or_text_shows_nothing() {
    assert!(marquee_spans(&vec![("abc".to_string(), 1)], 0, 0, 4).is_empty());
    assert_eq!(marquee_text(&[], 4, 0), "    ", "only the gap is left, repeated");
}
