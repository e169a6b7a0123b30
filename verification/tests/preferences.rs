use ytmtui::app::preferences::{format_interval, offset_label, wrap, yes_no, SettingRow};

#[test]
fn wrapping_covers_both_directions_and_both_edges() {
    assert_eq!(wrap(0, 1, 3), 1);
    assert_eq!(wrap(2, 1, 3), 0, "forward past the end wraps to the start");
    assert_eq!(wrap(0, -1, 3), 2, "backward past the start wraps to the end");
    assert_eq!(wrap(0, 1, 0), 0);
}

#[test]
fn intervals_read_in_minutes_when_whole() {
    assert_eq!(format_interval(300), "5 min");
    assert_eq!(format_interval(90), "90s");
    assert_eq!(yes_no(true), "sim");
    assert_eq!(yes_no(false), "não");
    assert_eq!(SettingRow::all().len(), 9);
    assert_eq!(SettingRow::LyricsOffset.label(), "Sincronia da letra");
}

#[test]
fn lyrics_corrections_read_in_seconds_with_two_decimals() {
    assert_eq!(offset_label(250), Some("+0.25s".to_string()));
    assert_eq!(offset_label(-10_000), Some("-10.00s".to_string()));
    assert_eq!(offset_label(1_050), Some("+1.05s".to_string()));
    assert_eq!(offset_label(0), None);
    assert_eq!(offset_label(1_005), None, "not a whole number of hundredths");
}

#[test]
fn nudging_the_lyrics_reports_the_new_correction() {
    let mut app = ytmtui::app::App::with_provider("mock", "Mock Provider", ytmtui::provider::Capabilities::all(), false);
    assert!(matches!(app.adjust_lyrics_offset(250), ytmtui::app::Effect::SaveConfig));
    assert_eq!(app.status, "Sincronia da letra: +0.25s");
    assert_eq!(app.setting_value(SettingRow::LyricsOffset), Some("+0.25s".to_string()));
    app.adjust_lyrics_offset(-250);
    assert_eq!(app.status, "Sincronia da letra: original.");
    assert_eq!(app.setting_value(SettingRow::LyricsOffset), Some("original".to_string()));
}
