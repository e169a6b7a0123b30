use ytmtui::artwork::{cell_size_from, env_reports_image_support, should_query_protocol, wants_picker};
use ytmtui::config::ArtworkMode;

#[test]
fn cell_size_requires_sane_pixel_reports() {
    assert_eq!(cell_size_from(80, 24, 640, 384), Some((8, 16)));
    assert_eq!(cell_size_from(80, 24, 0, 0), None);
    assert_eq!(cell_size_from(80, 24, 40, 384), None);
    assert_eq!(cell_size_from(0, 0, 640, 384), None);
}

#[test]
fn image_protocol_query_is_gated_by_terminal_identity() {
    assert!(env_reports_image_support(Some("xterm-kitty"), None, true, false));
    assert!(env_reports_image_support(Some("xterm-256color"), Some("WezTerm"), false, false));
    assert!(env_reports_image_support(Some("xterm-256color"), None, false, true));
    assert!(!env_reports_image_support(Some("xterm-256color"), None, false, false));
    assert!(!env_reports_image_support(None, None, false, false));
}

#[test]
fn artwork_mode_off_never_wants_a_picker() {
    assert!(!wants_picker(ArtworkMode::Off));
    assert!(wants_picker(ArtworkMode::Auto));
    assert!(wants_picker(ArtworkMode::HalfBlocks));
}

#[test]
fn only_auto_mode_queries_the_real_protocol() {
    assert!(should_query_protocol(ArtworkMode::Auto, true));
    assert!(!should_query_protocol(ArtworkMode::Auto, false));
    assert!(!should_query_protocol(ArtworkMode::HalfBlocks, true));
    assert!(!should_query_protocol(ArtworkMode::HalfBlocks, false));
    assert!(!should_query_protocol(ArtworkMode::Off, true));
}

#[test]
fn matching_ignores_case_and_accepts_every_known_terminal() {
    assert!(env_reports_image_support(Some("XTERM-KITTY"), None, false, false));
    assert!(env_reports_image_support(Some("xterm-ghostty"), None, false, false));
    assert!(env_reports_image_support(Some("foot"), None, false, false));
    assert!(env_reports_image_support(None, Some("iTerm.app"), false, false));
    assert!(env_reports_image_support(None, Some("ghostty"), false, false));
    assert!(!env_reports_image_support(Some("wezterm"), None, false, false));
    assert_eq!(cell_size_from(100, 50, 1000, 1000), Some((10, 20)));
}
