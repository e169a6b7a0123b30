use ytmtui::config::AnimationSpeed;
use ytmtui::ui::state::{AnimationClock, LyricsView};

#[test]
fn kick_is_a_no_op_under_reduced_motion() {
    let mut clock = AnimationClock::new(AnimationSpeed::Normal, true);
    clock.kick(500);
    assert!(!clock.animating());
}

#[test]
fn kick_scales_its_window_by_the_speed() {
    let mut fast = AnimationClock::new(AnimationSpeed::Fast, false);
    let mut slow = AnimationClock::new(AnimationSpeed::Slow, false);
    let base = 1000;
    fast.kick(base);
    slow.kick(base);
    assert!(fast.animate_until.unwrap() < slow.animate_until.unwrap(), "a faster speed must finish its window sooner");
}

#[test]
fn overlapping_kicks_extend_rather_than_truncate() {
    let mut clock = AnimationClock::new(AnimationSpeed::Normal, false);
    clock.kick(1000);
    let long = clock.animate_until.unwrap();
    clock.kick(10);
    assert_eq!(clock.animate_until.unwrap(), long, "a short kick must not cut a longer one short");
}

#[test]
fn turning_on_reduced_motion_retires_the_running_transition() {
    let mut clock = AnimationClock::new(AnimationSpeed::Normal, false);
    clock.kick(5000);
    assert!(clock.animating());
    clock.set_reduced_motion(true);
    assert!(!clock.animating(), "the switch must apply on the next frame");
}

#[test]
fn elapsed_time_is_scaled_so_faster_speeds_reach_thresholds_sooner() {
    let fast = AnimationClock::new(AnimationSpeed::Fast, false);
    let slow = AnimationClock::new(AnimationSpeed::Slow, false);
    assert!(fast.scale(600) > slow.scale(600));
    assert_eq!(AnimationClock::new(AnimationSpeed::Normal, false).scale(600), 600, "normal speed is the identity");
}

#[test]
fn a_never_moved_selection_reports_no_elapsed_time() {
    let clock = AnimationClock::new(AnimationSpeed::Normal, false);
    assert!(!clock.selection_ever_changed());
    assert_eq!(clock.since_selection_ms(), None);
}

#[test]
fn kicks_at_fixed_readings_give_exact_deadlines() {
    let mut clock = AnimationClock::new(AnimationSpeed::Slow, false);
    clock.kick_at(1000, 50);
    assert_eq!(clock.animate_until, Some(1650));
    assert!(clock.animating_at(1649));
    assert!(!clock.animating_at(1650));
    clock.mark_selection_changed_at(100);
    assert_eq!(clock.since_selection_ms_at(100 + 160), Some(100));
    assert_eq!(AnimationClock::new(AnimationSpeed::Fast, false).scale(600), 1000);
}

fn lyrics() -> LyricsView {
    LyricsView::new(0)
}

#[test]
fn a_fresh_view_follows_the_song() {
    let view = lyrics();
    assert!(view.following());
    assert_eq!(view.focused_line(Some(4)), Some(4), "follows the sung line");
}

#[test]
fn browsing_suspends_follow_and_takes_over_the_focus() {
    let mut view = lyrics();
    view.browse(1, 10, Some(4));
    assert!(!view.following(), "manual scrolling must stop the yanking");
    assert_eq!(view.focused_line(Some(4)), Some(5), "the cursor leads now");
}

#[test]
fn browsing_clamps_to_the_ends_of_the_song() {
    let mut view = lyrics();
    view.browse(-100, 10, Some(0));
    assert_eq!(view.focused_line(Some(0)), Some(0));
    view.browse(100, 10, Some(0));
    assert_eq!(view.focused_line(Some(0)), Some(9));
}

#[test]
fn browsing_an_empty_lyric_is_a_no_op() {
    let mut view = lyrics();
    view.browse(1, 0, None);
    assert!(view.following(), "nothing to browse, nothing to suspend");
}

#[test]
fn following_again_hands_the_view_back_to_the_song() {
    let mut view = lyrics();
    view.browse(3, 10, Some(0));
    view.follow_now();
    assert!(view.following());
    assert_eq!(view.focused_line(Some(7)), Some(7));
}

#[test]
fn a_new_track_drops_a_cursor_left_over_from_the_last_one() {
    let mut view = lyrics();
    view.browse(5, 10, Some(0));
    view.scroll = 12;
    view.reset();
    assert!(view.following());
    assert_eq!(view.scroll, 0);
}

#[test]
fn the_offset_shifts_the_position_in_both_directions() {
    let mut view = lyrics();
    assert_eq!(view.corrected_position_ms(1000), 1000);
    view.adjust_offset(250);
    assert_eq!(view.corrected_position_ms(1000), 1250);
    view.adjust_offset(-500);
    assert_eq!(view.corrected_position_ms(1000), 750);
}

#[test]
fn a_negative_offset_never_produces_a_negative_position() {
    let mut view = lyrics();
    view.adjust_offset(-5000);
    assert_eq!(view.corrected_position_ms(100), 0);
}

#[test]
fn the_offset_is_bounded_so_a_stuck_key_cannot_strand_the_lyrics() {
    let mut view = lyrics();
    for _ in 0..200 {
        view.adjust_offset(250);
    }
    assert_eq!(view.offset_ms(), 10_000);
    for _ in 0..400 {
        view.adjust_offset(-250);
    }
    assert_eq!(view.offset_ms(), -10_000);
}

#[test]
fn a_line_that_never_changed_is_already_settled() {
    assert_eq!(lyrics().line_entry_elapsed_at(180), None);
}

#[test]
fn a_just_changed_line_starts_its_entry_fade() {
    let mut view = lyrics();
    view.mark_line_changed_at(500);
    assert_eq!(view.line_entry_elapsed_at(510), Some(10));
}

#[test]
fn the_window_expires_on_its_own() {
    let mut clock = AnimationClock::new(AnimationSpeed::Normal, false);
    clock.kick_at(1, 100);
    assert!(clock.animating_at(100));
    assert!(!clock.animating_at(105), "the fast tier must not be held open forever");
}
