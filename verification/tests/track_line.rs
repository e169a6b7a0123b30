use ytmtui::app::{App, RepeatMode};
use ytmtui::models::Track;
use ytmtui::provider::Capabilities;
use ytmtui::ui::layout::{main_rows, time_labels};
use ytmtui::ui::track_line::{PlayState, SUBTITLE_TAG, TITLE_TAG};

fn track(title: &str, artist: &str, duration: &str, duration_secs: u64, id: &str) -> Track {
    Track {
        video_id: id.to_string(),
        title: title.to_string(),
        artist: artist.to_string(),
        album: "Parachutes".to_string(),
        duration: duration.to_string(),
        duration_secs,
        thumbnail: None,
    }
}

fn playing_app() -> App {
    let mut app = App::with_provider("mock", "Mock Provider", Capabilities::all(), false);
    let t = track("Yellow", "Coldplay", "4:27", 267, "vid1");
    app.queue = vec![t.clone()];
    app.queue_index = Some(0);
    app.current = Some(t);
    app
}

fn text_of(runs: &[(String, u32)]) -> String {
    runs.iter().map(|(s, _)| s.as_str()).collect()
}

#[test]
fn short_terminal_drops_the_playback_rows_safely() {
    let app = playing_app();
    // Six rows keep the content and the status bar; the two-line playback
    // summary, and with it the "/ 4:27" progress, is dropped.
    let (playback, status) = main_rows(6);
    assert!(!playback, "no progress gauge on short terminals");
    assert!(status);
    assert!(app.current.is_some());
}

#[test]
fn playing_state_shows_track_progress_and_state_glyph() {
    let app = playing_app();
    let line = app.track_line(80, 100, 0);
    let text = text_of(&line.middle);
    assert!(text.contains("Yellow"), "track title: {text}");
    assert!(text.contains("Coldplay"), "artist: {text}");
    let (_, right) = time_labels(0, 267, true);
    assert!(right.contains("4:27"), "duration label: {right}");
    assert_eq!(line.state, PlayState::Playing);
    assert_eq!(line.glyph, '▶', "playing glyph");
}

#[test]
fn long_titles_are_truncated_with_an_ellipsis() {
    let mut app = playing_app();
    let long_title = "Supercalifragilistic ".repeat(12);
    if let Some(t) = app.current.as_mut() {
        t.title = long_title.clone();
    }
    // Too little room to scroll: the title is cut with an ellipsis.
    let narrow = app.track_line(80, 25, 0);
    let text = text_of(&narrow.middle);
    assert!(text.contains('…'), "ellipsis for long title: {text}");
    // Room to scroll: a window of it moves, never the whole title.
    let wide = app.track_line(80, 80, 0);
    assert!(!text_of(&wide.middle).contains(&long_title), "full long title must not be rendered");
    assert!(!text.contains(&long_title));
}

#[test]
fn the_line_reads_title_then_artist_and_album() {
    let app = playing_app();
    let line = app.track_line(80, 100, 0);
    assert_eq!(
        line.middle,
        vec![("Yellow".to_string(), TITLE_TAG), (" — Coldplay · Parachutes".to_string(), SUBTITLE_TAG)]
    );
    assert!(!line.liked);
    assert_eq!(line.slider, "━━━━━━━━●──");
    assert_eq!(line.modes, " 80%");
    // 100 columns less 3 (space, glyph, space), 11 of slider, 4 of modes and 2.
    let used = "Yellow".chars().count() + " — Coldplay · Parachutes".chars().count();
    assert_eq!(line.pad, 80 - used + 1);
}

#[test]
fn idle_liked_and_modes_are_shown() {
    let mut idle = App::with_provider("mock", "Mock Provider", Capabilities::all(), false);
    let line = idle.track_line(0, 100, 0);
    assert_eq!(line.state, PlayState::Stopped);
    assert_eq!(line.glyph, '⏹');
    assert_eq!(text_of(&line.middle), "Nothing playing");
    assert_eq!(line.slider, "●──────────");
    idle.loading_audio = true;
    assert_eq!(idle.track_line(0, 100, 0).state, PlayState::Loading);

    let mut app = playing_app();
    app.liked = vec!["vid1".to_string()];
    app.paused = true;
    app.shuffle = true;
    app.repeat = RepeatMode::One;
    let line = app.track_line(100, 100, 0);
    assert!(line.liked);
    assert_eq!(line.glyph, '⏸');
    assert_eq!(line.slider, "━━━━━━━━━━●");
    assert_eq!(line.modes, " 100% · shuffle · repeat one");
}

#[test]
fn a_track_without_album_shows_only_the_artist() {
    let mut app = playing_app();
    if let Some(t) = app.current.as_mut() {
        t.album = String::new();
    }
    let line = app.track_line(50, 100, 0);
    assert_eq!(line.middle[1].0, " — Coldplay");
    assert_eq!(line.slider, "━━━━━●─────");
}
