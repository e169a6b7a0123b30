//! Deciding whether and how this terminal can show a cover.

use vstd::prelude::*;
use crate::config::ArtworkMode;
use crate::text::{chars_of, contains_chars, contains_seq, lower_chars, lower_seq};

verus! {

/// The characters of an optional string; absent reads as empty.
pub open spec fn opt_str_view(s: Option<&str>) -> Seq<char> {
    match s {
        Some(t) => t@,
        None => Seq::empty(),
    }
}

/// Whether the environment names a terminal known to answer image-protocol
/// queries (Kitty, Ghostty, foot, WezTerm, iTerm2, or Konsole/Kitty by their
/// own variables). Matching ignores ASCII case.
pub open spec fn spec_env_reports_image_support(
    term: Seq<char>,
    program: Seq<char>,
    has_kitty_window: bool,
    has_konsole_version: bool,
) -> bool {
    let t = lower_seq(term);
    let p = lower_seq(program);
    has_kitty_window || has_konsole_version || contains_seq(t, "kitty"@) || contains_seq(t, "ghostty"@)
        || contains_seq(t, "foot"@) || contains_seq(p, "wezterm"@) || contains_seq(p, "iterm"@)
        || contains_seq(p, "ghostty"@)
}

/// Whether the environment identifies a terminal known to answer image
/// protocol queries. Unknown terminals must not be queried: one that never
/// answers would leave a reader blocked on the keyboard input.
pub fn env_reports_image_support(
    term: Option<&str>,
    term_program: Option<&str>,
    has_kitty_window: bool,
    has_konsole_version: bool,
) -> (r: bool)
    ensures
        r == spec_env_reports_image_support(
            opt_str_view(term),
            opt_str_view(term_program),
            has_kitty_window,
            has_konsole_version,
        ),
{
    if has_kitty_window || has_konsole_version {
        return true;
    }
    let term_chars = match term {
        Some(t) => chars_of(t),
        None => Vec::new(),
    };
    let program_chars = match term_program {
        Some(p) => chars_of(p),
        None => Vec::new(),
    };
    let t = lower_chars(&term_chars);
    let p = lower_chars(&program_chars);
    contains_chars(&t, &chars_of("kitty")) || contains_chars(&t, &chars_of("ghostty"))
        || contains_chars(&t, &chars_of("foot")) || contains_chars(&p, &chars_of("wezterm"))
        || contains_chars(&p, &chars_of("iterm")) || contains_chars(&p, &chars_of("ghostty"))
}

/// Whether `mode` wants a picker at all: `Off` never draws a cover.
pub fn wants_picker(mode: ArtworkMode) -> (r: bool)
    ensures
        r == (mode != ArtworkMode::Off),
{
    mode != ArtworkMode::Off
}

/// Whether the terminal should be asked for its real image protocol: only
/// in `Auto` mode, and only on a terminal known to answer.
pub fn should_query_protocol(mode: ArtworkMode, env_supported: bool) -> (r: bool)
    ensures
        r == (mode == ArtworkMode::Auto && env_supported),
{
    mode == ArtworkMode::Auto && env_supported
}

/// Cell size in pixels from the reported window size; `None` when the
/// report is unusable. A zero-sized cell must never reach the picker.
pub fn cell_size_from(columns: u16, rows: u16, width: u16, height: u16) -> (r: Option<(u16, u16)>)
    ensures
        r == (if columns == 0 || rows == 0 || width / columns == 0 || height / rows == 0 {
            None
        } else {
            Some(((width / columns) as u16, (height / rows) as u16))
        }),
{
    if columns == 0 || rows == 0 {
        return None;
    }
    let cell = (width / columns, height / rows);
    if cell.0 > 0 && cell.1 > 0 {
        Some(cell)
    } else {
        None
    }
}

} // verus!
