use ytmtui::app::messages::client_error_message;
use ytmtui::app::startup::{theme_index, Startup};
use ytmtui::app::{App, Focus, Msg, RepeatMode, Section};
use ytmtui::config::{AnimationSpeed, ArtworkMode, HomeDensity, VisualizerStyle};
use ytmtui::provider::{AuthState, Capabilities, ProviderError};
use ytmtui::ui::layout::{
    centered_rect, clock_label, contextual_shortcuts, date_label, greeting, main_rows, narrow_rows, picker_size, time_labels,
    CellRect,
};

fn startup(auth: AuthState) -> Startup {
    Startup {
        provider_id: "ytmusic".to_string(),
        provider_name: "YouTube Music".to_string(),
        capabilities: Capabilities::all(),
        authentication: auth,
        missing_requested_path: None,
        cookies: None,
        shuffle: true,
        repeat: "all".to_string(),
        theme: "oceano".to_string(),
        username: Some("   ".to_string()),
        sync_interval_secs: 0,
        artwork_mode: "halfblocks".to_string(),
        home_density: "compact".to_string(),
        visualizer: "mono".to_string(),
        animation_speed: "fast".to_string(),
        reduced_motion: false,
        splash: true,
        lyrics_offset_ms: 250,
        recent: Vec::new(),
        theme_names: vec!["Roxo".to_string(), "Oceano".to_string()],
        seed: 42,
    }
}

#[test]
fn stored_preferences_are_applied_at_start() {
    let app = App::start(startup(AuthState::Anonymous));
    assert!(app.running);
    assert!(app.shuffle);
    assert_eq!(app.repeat, RepeatMode::All);
    assert_eq!(app.theme_index, 1, "theme names match ignoring case");
    assert_eq!(app.artwork_mode, ArtworkMode::HalfBlocks);
    assert_eq!(app.home_density, HomeDensity::Compact);
    assert_eq!(app.visualizer_style, VisualizerStyle::Mono);
    assert_eq!(app.ui.anim.speed, AnimationSpeed::Fast);
    assert_eq!(app.ui.lyrics.offset_ms, 250);
    assert!(app.ui.splash_running);
    assert_eq!(app.section, Section::Inicio);
    assert_eq!(app.focus, Focus::Sidebar);
    assert_eq!(app.rng_state, 43, "the seed is made odd");
}

#[test]
fn a_zero_sync_interval_is_raised_to_the_minimum() {
    let app = App::start(startup(AuthState::Anonymous));
    assert_eq!(app.sync_interval_secs, 30);
    let mut s = startup(AuthState::Anonymous);
    s.sync_interval_secs = 600;
    assert_eq!(App::start(s).sync_interval_secs, 600);
}

#[test]
fn a_blank_display_name_counts_as_none() {
    let app = App::start(startup(AuthState::Anonymous));
    assert_eq!(app.account_name, None);
    let mut s = startup(AuthState::Anonymous);
    s.username = Some(" Ana ".to_string());
    assert_eq!(App::start(s).account_name, Some(" Ana ".to_string()));
}

#[test]
fn the_welcome_line_tells_the_session_state() {
    let app = App::start(startup(AuthState::Authenticated));
    assert_eq!(app.status, "Signed in. Loading your library... Press / to search or ? for help.");
    let app = App::start(startup(AuthState::Expired));
    assert_eq!(app.status, "Session expired. Press g to sign in again from your browser.");
    let app = App::start(startup(AuthState::InvalidCredentials));
    assert_eq!(app.status, "Cookie file is invalid. Press g to sign in from your browser.");
    let app = App::start(startup(AuthState::Anonymous));
    assert_eq!(app.status, "Welcome to ytmtui. Press / to search or ? for help.");
    let mut s = startup(AuthState::Anonymous);
    s.missing_requested_path = Some("/tmp/cookies.txt".to_string());
    assert_eq!(App::start(s).status, "Configured cookie file does not exist: /tmp/cookies.txt");
}

#[test]
fn an_unknown_theme_name_selects_the_default() {
    let names = vec!["Roxo".to_string(), "Oceano".to_string()];
    assert_eq!(theme_index(&names, "OCEANO"), 1);
    assert_eq!(theme_index(&names, "removed"), 0);
}

#[test]
fn reduced_motion_keeps_the_splash_off() {
    let mut s = startup(AuthState::Anonymous);
    s.reduced_motion = true;
    let app = App::start(s);
    assert!(!app.ui.splash_running);
    assert!(app.ui.anim.reduced_motion);
}

#[test]
fn provider_errors_become_messages() {
    assert!(matches!(client_error_message("Busca", ProviderError::SessionExpired), Msg::SessionExpired));
    match client_error_message("Busca", ProviderError::Message("timeout".to_string())) {
        Msg::Error(text) => assert_eq!(text, "Busca: timeout"),
        _ => panic!("expected an error message"),
    }
}

#[test]
fn optional_rows_are_dropped_on_short_terminals() {
    assert_eq!(main_rows(9), (true, true));
    assert_eq!(main_rows(6), (false, true));
    assert_eq!(main_rows(3), (false, false));
    assert_eq!(narrow_rows(10), (true, true, true));
    assert_eq!(narrow_rows(9), (true, false, true));
    assert_eq!(narrow_rows(4), (true, false, false));
    assert_eq!(narrow_rows(1), (false, false, false));
}

#[test]
fn shortcuts_follow_the_focus_and_the_section() {
    assert_eq!(contextual_shortcuts(true, Focus::Main, Section::Fila), "Enter search · Esc cancel");
    assert_eq!(contextual_shortcuts(false, Focus::Sidebar, Section::Fila), "↑↓ section · Enter open · / search · q quit");
    assert_eq!(contextual_shortcuts(false, Focus::Main, Section::Fila), "Enter play · d remove · J/K move · c clear · ? help");
    assert_eq!(contextual_shortcuts(false, Focus::Main, Section::Inicio), "Enter open · / search · ? help · q quit");
}

#[test]
fn the_greeting_follows_the_hour_and_the_account() {
    assert_eq!(greeting(8, &None), " Good morning");
    assert_eq!(greeting(12, &Some("Ana".to_string())), " Good afternoon, Ana");
    assert_eq!(greeting(17, &None), " Good afternoon");
    assert_eq!(greeting(18, &None), " Good evening");
    assert_eq!(greeting(4, &None), " Good evening");
    assert_eq!(date_label(0, 0, 5), "Mon · Jan 5 ");
    assert_eq!(date_label(6, 11, 31), "Sun · Dec 31 ");
}

#[test]
fn clock_labels_pad_seconds_to_two_digits() {
    assert_eq!(clock_label(267), "4:27");
    assert_eq!(clock_label(5), "0:05");
    assert_eq!(clock_label(3600), "60:00");
    assert_eq!(time_labels(30, 267, true), ("0:30".to_string(), "4:27".to_string()));
    assert_eq!(time_labels(0, 0, false), ("-:--".to_string(), "-:--".to_string()));
}

#[test]
fn the_account_picker_is_centered_and_never_too_small() {
    let frame = CellRect { x: 0, y: 0, width: 100, height: 30 };
    assert_eq!(picker_size(100, 30, 2), Some((64, 10)));
    assert_eq!(picker_size(100, 7, 2), None, "too short to be usable");
    assert_eq!(picker_size(22, 30, 2), None, "too narrow to be usable");
    assert_eq!(centered_rect(64, 10, frame), CellRect { x: 18, y: 10, width: 64, height: 10 });
    assert_eq!(centered_rect(120, 40, frame), CellRect { x: 0, y: 0, width: 120, height: 40 });
}

#[test]
fn the_loaded_history_is_cut_to_its_newest_eight_entries() {
    let mut s = startup(AuthState::Anonymous);
    s.recent = (0..12)
        .map(|i| ytmtui::models::Track { video_id: format!("v{i}"), ..Default::default() })
        .collect();
    let app = App::start(s);
    assert_eq!(app.recent.len(), 8);
    assert_eq!(app.recent[0].video_id, "v0");
    assert_eq!(app.recent[7].video_id, "v7");

    let mut short = startup(AuthState::Anonymous);
    short.recent = vec![ytmtui::models::Track { video_id: "only".to_string(), ..Default::default() }];
    assert_eq!(App::start(short).recent.len(), 1);
}
