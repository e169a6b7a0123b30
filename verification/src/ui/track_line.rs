//! The first line of the playback summary: a state glyph, the title and its
//! subtitle (scrolling when they do not fit), a liked mark, and on the right
//! the volume slider with the active playback modes.

use vstd::prelude::*;
use crate::app::{App, RepeatMode};
use crate::app::tasks::spinner_frame_char;
use crate::models::Track;
use crate::text::{chars_of, copy_string, decimal, decimal_string, push_char, push_chars, push_str, string_from, string_views, strings_contain};
use crate::ui::marquee::{marquee_spans, parts_view, spec_marquee};
use crate::ui::width::{display_width, fit_front, str_columns, truncate_chars};

verus! {

/// Tag of the title's characters.
pub const TITLE_TAG: u32 = 0;
/// Tag of the subtitle's characters.
pub const SUBTITLE_TAG: u32 = 1;
/// Tag of the blank gap that separates the scrolling text from its repeat.
pub const GAP_TAG: u32 = 2;

/// Milliseconds of track time per column the scrolling title moves.
pub const MARQUEE_STEP_MS: u64 = 350;

/// What the glyph at the start of the line tells.
#[derive(Debug, Clone, Copy, PartialEq, Eq, Structural)]
pub enum PlayState {
    /// Audio of the new track is being fetched.
    Loading,
    /// Nothing is playing.
    Stopped,
    Paused,
    Playing,
}

/// The parts of the track line, left to right.
pub struct TrackLine {
    pub state: PlayState,
    /// The state glyph (a spinner frame while loading); a space follows it.
    pub glyph: char,
    /// The title and subtitle as runs tagged [`TITLE_TAG`], [`SUBTITLE_TAG`]
    /// or [`GAP_TAG`].
    pub middle: Vec<(String, u32)>,
    /// Whether the liked mark follows the text.
    pub liked: bool,
    /// Blank columns between the text and the slider.
    pub pad: usize,
    /// Ten cells of volume with a knob: filled, knob, empty.
    pub slider: String,
    /// The volume percentage and the active modes.
    pub modes: String,
}

/// The glyph state of `app`.
pub open spec fn spec_play_state(app: App) -> PlayState {
    if app.loading_audio {
        PlayState::Loading
    } else if app.current is None {
        PlayState::Stopped
    } else if app.paused {
        PlayState::Paused
    } else {
        PlayState::Playing
    }
}

/// The glyph shown for the state of `app`.
pub open spec fn spec_glyph(app: App) -> char {
    match spec_play_state(app) {
        PlayState::Loading => spinner_frame_char((app.spinner_frame % 10) as int),
        PlayState::Stopped => '⏹',
        PlayState::Paused => '⏸',
        PlayState::Playing => '▶',
    }
}

/// The title shown: the playing track's, or a placeholder.
pub open spec fn line_title(current: Option<Track>) -> Seq<char> {
    match current {
        Some(t) => t.title@,
        None => "Nothing playing"@,
    }
}

/// The subtitle shown: the artist, then the album when there is one.
pub open spec fn line_subtitle(current: Option<Track>) -> Seq<char> {
    match current {
        Some(t) => if t.album@.len() == 0 {
            " — "@ + t.artist@
        } else {
            " — "@ + t.artist@ + " · "@ + t.album@
        },
        None => Seq::empty(),
    }
}

/// Whether the playing track is liked.
pub open spec fn spec_liked(app: App) -> bool {
    app.current matches Some(t) && string_views(app.liked@).contains(t.video_id@)
}

/// `n` copies of `c`.
pub open spec fn repeat_char(c: char, n: nat) -> Seq<char>
    decreases n,
{
    if n == 0 {
        Seq::empty()
    } else {
        repeat_char(c, (n - 1) as nat).push(c)
    }
}

/// Filled cells of the volume slider at `percent`: the nearest tenth, at
/// most ten.
pub open spec fn slider_filled(percent: u32) -> nat {
    let f = (percent as nat + 5) / 10;
    if f > 10 { 10 } else { f }
}

/// The volume slider at `percent`.
pub open spec fn spec_slider(percent: u32) -> Seq<char> {
    repeat_char('━', slider_filled(percent)) + seq!['●'] + repeat_char('─', (10 - slider_filled(percent)) as nat)
}

/// The volume percentage followed by the active playback modes.
pub open spec fn spec_modes(percent: u32, shuffle: bool, repeat: RepeatMode) -> Seq<char> {
    " "@ + decimal(percent as nat) + "%"@
        + (if shuffle { " · shuffle"@ } else { Seq::empty() })
        + match repeat {
            RepeatMode::All => " · repeat all"@,
            RepeatMode::One => " · repeat one"@,
            RepeatMode::Off => Seq::empty(),
        }
}

/// `a - b`, or 0 when `b` is larger.
pub open spec fn sat_diff(a: int, b: int) -> int {
    if a > b { a - b } else { 0 }
}

/// Columns left for the title and subtitle in a line `width` wide: the
/// leading space, the glyph and its space, the liked mark, the slider, the
/// modes and two columns around them are taken first.
pub open spec fn text_room(app: App, percent: u32, width: int) -> int {
    let fixed = 3 + if spec_liked(app) { 2int } else { 0 };
    let right = 11 + spec_modes(percent, app.shuffle, app.repeat).len() + 2;
    sat_diff(width, fixed + right)
}

/// `s` cut to `max` columns with an ellipsis, as [`truncate_chars`] cuts.
pub open spec fn spec_truncated(s: Seq<char>, max: int) -> Seq<char> {
    if str_columns(s) <= max {
        s
    } else if max <= 0 {
        Seq::empty()
    } else {
        s.take(fit_front(s, max - 1) as int).push('…')
    }
}

/// The title and subtitle runs in `room` columns at marquee step `step`:
/// a playing title that does not fit scrolls when there are at least eight
/// columns; otherwise the title is cut, and the subtitle follows, cut to
/// what is left, when at least four columns are left for it.
pub open spec fn spec_middle(current: Option<Track>, room: int, step: int) -> Seq<(Seq<char>, u32)> {
    let title = line_title(current);
    let subtitle = line_subtitle(current);
    if str_columns(title) + str_columns(subtitle) > room && room >= 8 && current is Some {
        spec_marquee(seq![(title, TITLE_TAG), (subtitle, SUBTITLE_TAG)], GAP_TAG, room, step)
    } else {
        let shown = spec_truncated(title, room);
        let left = sat_diff(room, str_columns(shown) as int);
        seq![(shown, TITLE_TAG), (if left >= 4 { spec_truncated(subtitle, left) } else { Seq::empty() }, SUBTITLE_TAG)]
    }
}

/// Columns taken by a list of runs.
pub open spec fn runs_columns(runs: Seq<(Seq<char>, u32)>) -> int
    decreases runs.len(),
{
    if runs.len() == 0 {
        0
    } else {
        runs_columns(runs.drop_last()) + str_columns(runs.last().0) as int
    }
}

/// The track line of `app` in `width` columns, with the volume at
/// `percent` and the track `position_ms` into playback.
pub open spec fn spec_track_line(app: App, percent: u32, width: int, position_ms: u64) -> (PlayState, char, Seq<(Seq<char>, u32)>, bool, int, Seq<char>, Seq<char>) {
    let room = text_room(app, percent, width);
    let middle = spec_middle(app.current, room, ((position_ms / MARQUEE_STEP_MS) as usize) as int);
    (
        spec_play_state(app),
        spec_glyph(app),
        middle,
        spec_liked(app),
        sat_diff(room, runs_columns(middle)) + 1,
        spec_slider(percent),
        spec_modes(percent, app.shuffle, app.repeat),
    )
}

impl TrackLine {
    /// The parts as plain values.
    pub open spec fn parts(&self) -> (PlayState, char, Seq<(Seq<char>, u32)>, bool, int, Seq<char>, Seq<char>) {
        (self.state, self.glyph, parts_view(self.middle@), self.liked, self.pad as int, self.slider@, self.modes@)
    }
}

fn push_repeat(s: &mut String, c: char, n: usize)
    ensures
        final(s)@ == old(s)@ + repeat_char(c, n as nat),
{
    let mut i: usize = 0;
    while i < n
        invariant
            i <= n,
            s@ == old(s)@ + repeat_char(c, i as nat),
        decreases n - i,
    {
        push_char(s, c);
        i = i + 1;
        assert(s@ =~= old(s)@ + repeat_char(c, i as nat));
    }
}

fn slider(percent: u32) -> (r: String)
    ensures
        r@ == spec_slider(percent),
{
    let f0: u64 = (percent as u64 + 5) / 10;
    let filled: usize = if f0 > 10 { 10 } else { f0 as usize };
    let mut s = String::new();
    push_repeat(&mut s, '━', filled);
    push_char(&mut s, '●');
    push_repeat(&mut s, '─', 10 - filled);
    assert(s@ =~= spec_slider(percent));
    s
}

fn modes(percent: u32, shuffle: bool, repeat: RepeatMode) -> (r: String)
    ensures
        r@ == spec_modes(percent, shuffle, repeat),
{
    let mut s = string_from(" ");
    let d = decimal_string(percent as u64);
    push_chars(&mut s, &d);
    push_str(&mut s, "%");
    if shuffle {
        push_str(&mut s, " · shuffle");
    }
    match repeat {
        RepeatMode::All => push_str(&mut s, " · repeat all"),
        RepeatMode::One => push_str(&mut s, " · repeat one"),
        RepeatMode::Off => {},
    }
    assert(s@ =~= spec_modes(percent, shuffle, repeat));
    s
}

fn title_of(current: &Option<Track>) -> (r: String)
    ensures
        r@ == line_title(*current),
{
    match current {
        Some(t) => copy_string(&t.title),
        None => string_from("Nothing playing"),
    }
}

fn subtitle_of(current: &Option<Track>) -> (r: String)
    ensures
        r@ == line_subtitle(*current),
{
    match current {
        Some(t) => {
            let mut s = string_from(" — ");
            push_str(&mut s, t.artist.as_str());
            if chars_of(t.album.as_str()).len() > 0 {
                push_str(&mut s, " · ");
                push_str(&mut s, t.album.as_str());
            }
            assert(s@ =~= line_subtitle(*current));
            s
        },
        None => {
            let s = String::new();
            assert(s@ =~= line_subtitle(*current));
            s
        },
    }
}

fn truncated(s: &String, max: usize) -> (r: String)
    ensures
        r@ == spec_truncated(s@, max as int),
{
    truncate_chars(s.as_str(), max)
}

/// Columns the runs take, saturated at `usize::MAX`.
fn columns_of(runs: &Vec<(String, u32)>) -> (r: usize)
    ensures
        r == if runs_columns(parts_view(runs@)) > usize::MAX { usize::MAX as int } else { runs_columns(parts_view(runs@)) },
{
    let mut used: usize = 0;
    let mut i: usize = 0;
    while i < runs.len()
        invariant
            i <= runs.len(),
            used == if runs_columns(parts_view(runs@.take(i as int))) > usize::MAX {
                usize::MAX as int
            } else {
                runs_columns(parts_view(runs@.take(i as int)))
            },
        decreases runs.len() - i,
    {
        let w = display_width(runs[i].0.as_str());
        proof {
            assert(parts_view(runs@.take(i + 1)).drop_last() =~= parts_view(runs@.take(i as int)));
            lemma_runs_columns_nonneg(parts_view(runs@.take(i as int)));
        }
        used = used.saturating_add(w);
        i = i + 1;
    }
    assert(runs@.take(runs.len() as int) =~= runs@);
    used
}

proof fn lemma_runs_columns_nonneg(runs: Seq<(Seq<char>, u32)>)
    ensures
        runs_columns(runs) >= 0,
    decreases runs.len(),
{
    if runs.len() > 0 {
        lemma_runs_columns_nonneg(runs.drop_last());
    }
}

impl App {
    /// The track line in `width` columns with the volume at `percent` and
    /// the track `position_ms` into playback (see [`spec_track_line`]): the
    /// scrolling title moves one column per [`MARQUEE_STEP_MS`] of track
    /// time, so it holds still while paused.
    pub fn track_line(&self, percent: u32, width: u16, position_ms: u64) -> (r: TrackLine)
        ensures
            r.parts() == spec_track_line(*self, percent, width as int, position_ms),
    {
        let state = if self.loading_audio {
            PlayState::Loading
        } else if self.current.is_none() {
            PlayState::Stopped
        } else if self.paused {
            PlayState::Paused
        } else {
            PlayState::Playing
        };
        let glyph = match state {
            PlayState::Loading => self.spinner(),
            PlayState::Stopped => '⏹',
            PlayState::Paused => '⏸',
            PlayState::Playing => '▶',
        };
        let liked = match &self.current {
            Some(t) => strings_contain(&self.liked, t.video_id.as_str()),
            None => false,
        };
        let slider = slider(percent);
        let modes = modes(percent, self.shuffle, self.repeat);
        let fixed: usize = if liked { 5 } else { 3 };
        let modes_len = chars_of(modes.as_str()).len();
        let taken: usize = modes_len.saturating_add(13 + fixed);
        let w = width as usize;
        let room: usize = if w > taken { w - taken } else { 0 };
        let title = title_of(&self.current);
        let subtitle = subtitle_of(&self.current);
        let tw = display_width(title.as_str());
        let sw = display_width(subtitle.as_str());
        let step = #[verifier::truncate] ((position_ms / MARQUEE_STEP_MS) as usize);
        let too_wide = tw > room || sw > room - tw;
        let middle: Vec<(String, u32)> = if too_wide && room >= 8 && self.current.is_some() {
            let mut parts: Vec<(String, u32)> = Vec::new();
            parts.push((title, TITLE_TAG));
            parts.push((subtitle, SUBTITLE_TAG));
            let ghost t = line_title(self.current);
            let ghost u = line_subtitle(self.current);
            assert(parts_view(parts@) =~= seq![(t, TITLE_TAG), (u, SUBTITLE_TAG)]);
            marquee_spans(&parts, GAP_TAG, room, step)
        } else {
            let shown = truncated(&title, room);
            let shown_w = display_width(shown.as_str());
            let left: usize = if room > shown_w { room - shown_w } else { 0 };
            let sub = if left >= 4 { truncated(&subtitle, left) } else { String::new() };
            let ghost a = shown@;
            let ghost b = sub@;
            let mut runs: Vec<(String, u32)> = Vec::new();
            runs.push((shown, TITLE_TAG));
            runs.push((sub, SUBTITLE_TAG));
            assert(parts_view(runs@) =~= seq![(a, TITLE_TAG), (b, SUBTITLE_TAG)]);
            runs
        };
        let used = columns_of(&middle);
        let pad: usize = if room > used { room - used + 1 } else { 1 };
        TrackLine { state, glyph, middle, liked, pad, slider, modes }
    }
}

} // verus!
