use ytmtui::ui::splash::{phase_at, shows_app_underneath, Phase, LOGO_WIDTH, SPLASH_MS, TAGLINE_END_MS, WIPE_END_MS};

const WIDTH: usize = 23;

#[test]
fn the_first_frame_already_shows_something() {
    match phase_at(0) {
        Phase::Wipe { columns } => assert!(columns >= 1, "got {columns} columns at t=0"),
        other => panic!("expected the wipe at t=0, got {other:?}"),
    }
}

#[test]
fn the_wipe_completes_the_wordmark_before_the_tagline_starts() {
    let last_wipe = WIPE_END_MS - 1;
    match phase_at(last_wipe) {
        Phase::Wipe { columns } => assert_eq!(columns, WIDTH, "the wipe must finish the glyph"),
        other => panic!("expected the wipe, got {other:?}"),
    }
}

#[test]
fn phases_run_in_order_and_end_at_done() {
    assert!(matches!(phase_at(0), Phase::Wipe { .. }));
    assert!(matches!(phase_at(500), Phase::Tagline { .. }));
    assert!(matches!(phase_at(900), Phase::Handoff { .. }));
    assert_eq!(phase_at(SPLASH_MS), Phase::Done);
    assert_eq!(phase_at(SPLASH_MS * 10), Phase::Done, "and stays done");
}

#[test]
fn each_phase_fills_its_own_range_end_to_end() {
    let tagline_start = WIPE_END_MS + 1;
    assert!(matches!(phase_at(tagline_start), Phase::Tagline { fade } if fade <= 2), "the tagline starts invisible");
    let handoff_start = TAGLINE_END_MS + 1;
    assert!(matches!(phase_at(handoff_start), Phase::Handoff { travel } if travel <= 2), "the handoff starts at the center");
    assert!(matches!(phase_at(SPLASH_MS - 1), Phase::Handoff { travel } if travel >= 98), "the handoff ends fully travelled");
}

#[test]
fn only_the_handoff_reveals_the_app_underneath() {
    assert!(!shows_app_underneath(Phase::Wipe { columns: 3 }));
    assert!(!shows_app_underneath(Phase::Tagline { fade: 50 }));
    assert!(shows_app_underneath(Phase::Handoff { travel: 0 }));
    assert!(shows_app_underneath(Phase::Done));
}

#[test]
fn the_phase_boundaries_fall_on_the_exact_milliseconds() {
    assert_eq!(LOGO_WIDTH, WIDTH);
    assert_eq!(phase_at(0), Phase::Wipe { columns: 1 });
    assert_eq!(phase_at(220), Phase::Wipe { columns: 12 });
    assert_eq!(phase_at(WIPE_END_MS), Phase::Tagline { fade: 0 });
    assert_eq!(phase_at(605), Phase::Tagline { fade: 50 });
    assert_eq!(phase_at(TAGLINE_END_MS), Phase::Handoff { travel: 0 });
    assert_eq!(phase_at(SPLASH_MS - 1), Phase::Handoff { travel: 100 });
}
