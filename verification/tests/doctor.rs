use ytmtui::doctor::{sanitize_detail, Check, Report};

#[test]
fn warnings_do_not_fail_but_required_failures_do() {
    let warnings = Report::new(vec![Check::warning("Runtime", "deno", "optional")]);
    assert_eq!(warnings.exit_code(), 0);

    let failed = Report::new(vec![Check::failure("Runtime", "ffmpeg", "missing", "install ffmpeg")]);
    assert_eq!(failed.exit_code(), 1);
}

#[test]
fn rendering_redacts_credentials_and_home_paths() {
    let source = "SAPISID=synthetic-secret; Authorization: SAPISIDHASH 1_synthetic-hash /home/alice/profile";
    let rendered = sanitize_detail(source, Some("/home/alice"));

    assert!(!rendered.contains("synthetic-secret"));
    assert!(!rendered.contains("synthetic-hash"));
    assert!(!rendered.contains("/home/alice"));
    assert!(rendered.contains("$HOME"));
}

#[test]
fn report_groups_sections_and_prints_summary() {
    let report = Report::new(vec![
        Check::ok("Runtime", "yt-dlp", "2026.07.04"),
        Check::warning("Runtime", "deno", "not found"),
    ]);

    let text = report.render();

    assert!(text.contains("[ok] yt-dlp"));
    assert_eq!(text.matches("Runtime\n").count(), 1);
    assert!(text.contains("Summary: 1 passed, 1 warning, 0 failed"));
}

#[test]
fn sanitization_is_case_insensitive_and_collapses_newlines() {
    let source = "sApIsId=synthetic-cookie-value; safe\r\n\
AUTHORIZATION: SAPISIDHASH 1_synthetic-header-hash /home/alice/profile\n\
cOoKiE: PREF=synthetic-cookie-header; HSID=synthetic-second-cookie\r\
done";

    let sanitized = sanitize_detail(source, Some("/home/alice"));

    assert!(!sanitized.contains("synthetic-cookie-value"));
    assert!(!sanitized.contains("synthetic-header-hash"));
    assert!(!sanitized.contains("synthetic-cookie-header"));
    assert!(!sanitized.contains("synthetic-second-cookie"));
    assert!(!sanitized.contains("/home/alice"));
    assert!(sanitized.contains("$HOME/profile"));
    assert!(!sanitized.contains(['\r', '\n']));
    assert!(sanitized.contains("safe"));
    assert!(sanitized.ends_with("done"));
}

#[test]
fn authorization_redacts_every_header_token() {
    let source = "Authorization: Digest synthetic-first-token synthetic-second-token\nsafe detail";

    let sanitized = sanitize_detail(source, None);

    assert!(!sanitized.contains("synthetic-first-token"));
    assert!(!sanitized.contains("synthetic-second-token"));
    assert!(sanitized.ends_with("safe detail"));
}

#[test]
fn authorization_preserves_only_the_actual_home_path_token() {
    let source = "Authorization: SAPISIDHASH synthetic-credential /home/alice/profile synthetic-second-token";

    let sanitized = sanitize_detail(source, Some("/home/alice"));

    assert!(!sanitized.contains("synthetic-credential"));
    assert!(!sanitized.contains("synthetic-second-token"));
    assert!(!sanitized.contains("/home/alice"));
    assert!(sanitized.contains("$HOME/profile"));
}

#[test]
fn literal_home_placeholder_does_not_bypass_authorization_redaction() {
    let source = "Authorization: SAPISIDHASH synthetic-credential $HOME/profile synthetic-second-token";

    let sanitized = sanitize_detail(source, None);

    assert!(!sanitized.contains("synthetic-credential"));
    assert!(!sanitized.contains("synthetic-second-token"));
    assert!(!sanitized.contains("$HOME/profile"));
}

#[test]
fn sapisid_redaction_continues_through_whitespace_to_cookie_delimiter() {
    let source = "SAPISID=\"synthetic-first synthetic-second\"; safe detail";

    let sanitized = sanitize_detail(source, None);

    assert!(!sanitized.contains("synthetic-first"));
    assert!(!sanitized.contains("synthetic-second"));
    assert!(sanitized.ends_with("; safe detail"));
}

#[test]
fn report_indents_failure_hints() {
    let report = Report::new(vec![Check::failure("Runtime", "ffmpeg", "missing", "install ffmpeg")]);

    assert!(report.render().contains("\n    Hint: install ffmpeg\n"));
}

#[test]
fn clean_details_pass_through_unchanged() {
    assert_eq!(sanitize_detail("version 1.2.3", None), "version 1.2.3");
    let empty = Report::new(vec![]);
    assert_eq!(empty.exit_code(), 0);
}
