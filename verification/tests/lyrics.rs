use ytmtui::lyrics::advance_active_line;
use ytmtui::models::LyricLine;

fn line(start_ms: u64) -> LyricLine {
    LyricLine { text: String::new(), start_ms, end_ms: start_ms + 1000 }
}

fn sample_lines() -> Vec<LyricLine> {
    vec![line(0), line(1000), line(2000), line(3000)]
}

#[test]
fn empty_lines_never_have_an_active_line() {
    assert_eq!(advance_active_line(&[], None, 5000), None);
}

#[test]
fn before_the_first_line_has_no_active_line() {
    let lines = sample_lines();
    assert_eq!(advance_active_line(&lines, None, 0), Some(0));
    let later_lines = vec![line(500), line(1500)];
    assert_eq!(advance_active_line(&later_lines, None, 100), None);
}

#[test]
fn advances_forward_monotonically_without_rescanning() {
    let lines = sample_lines();
    let mut cursor = advance_active_line(&lines, None, 0);
    assert_eq!(cursor, Some(0));
    cursor = advance_active_line(&lines, cursor, 1500);
    assert_eq!(cursor, Some(1));
    cursor = advance_active_line(&lines, cursor, 3200);
    assert_eq!(cursor, Some(3));
}

#[test]
fn past_the_last_line_stays_on_the_last_line() {
    let lines = sample_lines();
    assert_eq!(advance_active_line(&lines, Some(3), 999_999), Some(3));
}

#[test]
fn seeking_backward_rewinds_via_binary_search() {
    let lines = sample_lines();
    let cursor = advance_active_line(&lines, Some(3), 500);
    assert_eq!(cursor, Some(0));
}

#[test]
fn track_repeat_restart_resets_to_the_first_line() {
    let lines = sample_lines();
    let cursor = advance_active_line(&lines, Some(3), 0);
    assert_eq!(cursor, Some(0));
}

#[test]
fn the_active_line_is_the_last_started_whatever_the_cursor() {
    let lines = sample_lines();
    for cursor in [None, Some(0), Some(1), Some(2), Some(3)] {
        assert_eq!(advance_active_line(&lines, cursor, 2000), Some(2));
        assert_eq!(advance_active_line(&lines, cursor, 2999), Some(2));
    }
}

#[test]
fn without_lines_any_cursor_gives_no_active_line() {
    assert_eq!(advance_active_line(&[], Some(3), 5000), None);
}
