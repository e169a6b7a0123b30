use ytmtui::app::startup::theme_index;
use ytmtui::ui::theme::{builtin_names, parse_hex, theme_slot};

#[test]
fn hex_parsing_accepts_both_spellings_and_rejects_junk() {
    assert_eq!(parse_hex("#89b4fa"), Some((137, 180, 250)));
    assert_eq!(parse_hex("89B4FA"), Some((137, 180, 250)));
    assert_eq!(parse_hex("  #89b4fa  "), Some((137, 180, 250)));
    assert_eq!(parse_hex("#89b4f"), None, "too short");
    assert_eq!(parse_hex("#89b4faa"), None, "too long");
    assert_eq!(parse_hex("#zzzzzz"), None, "not hex");
    assert_eq!(parse_hex(""), None);
}

#[test]
fn repeated_hashes_are_all_stripped() {
    assert_eq!(parse_hex("##000000"), Some((0, 0, 0)));
    assert_eq!(parse_hex("#ffFFff"), Some((255, 255, 255)));
}

#[test]
fn names_resolve_case_insensitively_and_fall_back_to_the_default() {
    let names = builtin_names();
    assert_eq!(theme_index(&names, "roxo"), 0);
    assert_eq!(theme_index(&names, "VERDE SPOTIFY"), 2);
    // A theme that was deleted from disk since the last session must
    // not leave the app themeless.
    assert_eq!(theme_index(&names, "a theme that never existed"), 0);
}

#[test]
fn indexing_wraps_instead_of_panicking() {
    let names = builtin_names();
    let len = names.len();
    assert_eq!(names[theme_slot(len, len)], names[theme_slot(0, len)]);
}
