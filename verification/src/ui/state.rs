//! Presentation state: scroll offsets, grid geometry and animation timing —
//! how the application is being looked at, not what it is playing.
//!
//! Each timed object reads the clock through its own origin (see
//! `crate::clock`). Every decision that depends on the time has a `_at`
//! form taking the current reading in milliseconds, with an exact contract;
//! the form without the suffix reads the clock and delegates.

use vstd::prelude::*;
use std::time::Instant;
use crate::clock::{instant_now, millis_since};
use crate::config::AnimationSpeed;
use crate::ui::splash::{Phase, spec_phase_at, phase_at};

verus! {

/// How long auto-follow stays off after a manual scroll, in milliseconds.
pub const FOLLOW_SUSPEND_MS: u128 = 4000;

/// Bound of the lyrics timing correction, in milliseconds.
pub const MAX_LYRICS_OFFSET_MS: i64 = 10_000;

/// Largest clock reading used in scaling, to keep arithmetic exact.
pub open spec fn reading_bound() -> int {
    u64::MAX as int
}

/// Everything the renderer owns.
#[derive(Debug)]
pub struct UiState {
    pub anim: AnimationClock,
    /// State of the Lyrics panel.
    pub lyrics: LyricsView,
    /// Manual scroll offset of the Help panel.
    pub help_scroll: u16,
    /// Number of Home card columns the current layout fits.
    pub home_columns: usize,
    /// Whether the entry animation is still running.
    pub splash_running: bool,
}

impl UiState {
    /// Fresh presentation state. Reduced motion outranks the splash
    /// preference: it exists to stop exactly this kind of decorative motion.
    pub fn new(speed: AnimationSpeed, reduced_motion: bool, splash: bool, lyrics_offset_ms: i64) -> (r: UiState)
        ensures
            r.anim.speed == speed,
            r.anim.reduced_motion == reduced_motion,
            r.anim.animate_until is None,
            r.anim.selection_changed_at is None,
            r.anim.section_changed_at is None,
            r.lyrics.cursor is None,
            r.lyrics.suspended_until is None,
            r.lyrics.offset_ms == lyrics_offset_ms,
            r.lyrics.scroll == 0,
            r.help_scroll == 0,
            r.home_columns == 1,
            r.splash_running == (splash && !reduced_motion),
    {
        UiState {
            anim: AnimationClock::new(speed, reduced_motion),
            lyrics: LyricsView::new(lyrics_offset_ms),
            help_scroll: 0,
            home_columns: 1,
            splash_running: splash && !reduced_motion,
        }
    }

    /// The entry animation's phase at animation time `since_boot_ms`, or
    /// `None` once it is over or was cancelled.
    pub fn splash_phase_at(&self, since_boot_ms: u128) -> (r: Option<Phase>)
        ensures
            r == (if !self.splash_running || spec_phase_at(since_boot_ms as int) is Done {
                None
            } else {
                Some(spec_phase_at(since_boot_ms as int))
            }),
    {
        if !self.splash_running {
            return None;
        }
        match phase_at(since_boot_ms) {
            Phase::Done => None,
            phase => Some(phase),
        }
    }

    /// The entry animation's current phase, or `None` once it is over.
    pub fn splash_phase(&self) -> (r: Option<Phase>)
        ensures
            !self.splash_running ==> r is None,
            r matches Some(p) ==> !(p is Done),
    {
        let since = self.anim.since_boot_ms();
        self.splash_phase_at(since)
    }

    /// Cancels the entry animation (first key press).
    pub fn skip_splash(&mut self)
        ensures
            !final(self).splash_running,
            final(self).anim == old(self).anim,
            final(self).lyrics == old(self).lyrics,
            final(self).help_scroll == old(self).help_scroll,
            final(self).home_columns == old(self).home_columns,
    {
        self.splash_running = false;
    }
}

/// The Lyrics panel's view state.
#[derive(Debug)]
pub struct LyricsView {
    /// Scroll offset for untimed lyrics.
    pub scroll: u16,
    /// Line the user browsed to; `None` while auto-follow drives the view.
    pub cursor: Option<usize>,
    /// Reading at which auto-follow resumes; `None` means following now.
    pub suspended_until: Option<u128>,
    /// Reading at which the sung line last changed.
    pub line_changed_at: Option<u128>,
    /// Correction applied to every lyric timestamp, in milliseconds.
    pub offset_ms: i64,
    /// Clock origin of the readings above.
    pub origin: Instant,
}

/// `x` clamped to `[lo, hi]`.
pub open spec fn clamp_int(x: int, lo: int, hi: int) -> int {
    if x < lo {
        lo
    } else if x > hi {
        hi
    } else {
        x
    }
}

impl LyricsView {
    /// A view that follows playback, with the given timing correction.
    pub fn new(offset_ms: i64) -> (r: LyricsView)
        ensures
            r.scroll == 0,
            r.cursor is None,
            r.suspended_until is None,
            r.line_changed_at is None,
            r.offset_ms == offset_ms,
    {
        LyricsView {
            scroll: 0,
            cursor: None,
            suspended_until: None,
            line_changed_at: None,
            offset_ms,
            origin: instant_now(),
        }
    }

    /// Whether the view tracks playback at reading `now`.
    pub open spec fn spec_following(&self, now: u128) -> bool {
        match self.suspended_until {
            Some(until) => now >= until,
            None => true,
        }
    }

    /// The line in focus at reading `now`: the cursor while browsing,
    /// otherwise the sung line `active`.
    pub open spec fn spec_focused_line(&self, active: Option<usize>, now: u128) -> Option<usize> {
        if self.spec_following(now) {
            active
        } else {
            match self.cursor {
                Some(c) => Some(c),
                None => active,
            }
        }
    }

    /// The view after a reset: no scroll and no browsing cursor.
    pub open spec fn spec_reset(&self) -> LyricsView {
        LyricsView { scroll: 0, cursor: None, suspended_until: None, ..*self }
    }

    /// The current clock reading of this view.
    pub fn now_ms(&self) -> u128 {
        millis_since(&self.origin)
    }

    /// Whether the view tracks playback at reading `now`.
    pub fn following_at(&self, now: u128) -> (r: bool)
        ensures
            r == self.spec_following(now),
    {
        match self.suspended_until {
            Some(until) => now >= until,
            None => true,
        }
    }

    /// Whether the view is tracking playback now.
    pub fn following(&self) -> (r: bool)
        ensures
            self.suspended_until is None ==> r,
    {
        let now = self.now_ms();
        self.following_at(now)
    }

    /// The line in focus at reading `now`.
    pub fn focused_line_at(&self, active: Option<usize>, now: u128) -> (r: Option<usize>)
        ensures
            r == self.spec_focused_line(active, now),
    {
        if self.following_at(now) {
            active
        } else {
            match self.cursor {
                Some(c) => Some(c),
                None => active,
            }
        }
    }

    /// The line the user is looking at: the cursor while browsing, or the
    /// sung line while following.
    pub fn focused_line(&self, active: Option<usize>) -> (r: Option<usize>)
        ensures
            self.suspended_until is None ==> r == active,
            r == active || r == self.cursor,
    {
        let now = self.now_ms();
        self.focused_line_at(active, now)
    }

    /// Moves the browsing cursor by `delta` from the focused line at reading
    /// `now`, clamped to the `len` lines, and holds auto-follow off for
    /// [`FOLLOW_SUSPEND_MS`]. Nothing happens when there are no lines.
    pub fn browse_at(&mut self, delta: isize, len: usize, active: Option<usize>, now: u128)
        ensures
            len == 0 ==> *final(self) == *old(self),
            len > 0 ==> ({
                let from = match old(self).spec_focused_line(active, now) {
                    Some(f) => f as int,
                    None => 0,
                };
                &&& final(self).cursor == Some(clamp_int(from + delta, 0, len - 1) as usize)
                &&& final(self).suspended_until == Some(
                    if now + FOLLOW_SUSPEND_MS > u128::MAX { u128::MAX } else { (now + FOLLOW_SUSPEND_MS) as u128 },
                )
                &&& final(self).scroll == old(self).scroll
                &&& final(self).line_changed_at == old(self).line_changed_at
                &&& final(self).offset_ms == old(self).offset_ms
                &&& final(self).origin == old(self).origin
            }),
    {
        if len == 0 {
            return;
        }
        let from: i128 = match self.focused_line_at(active, now) {
            Some(f) => f as i128,
            None => 0,
        };
        let target: i128 = from + delta as i128;
        let last: i128 = len as i128 - 1;
        let clamped: i128 = if target < 0 {
            0
        } else if target > last {
            last
        } else {
            target
        };
        self.cursor = Some(clamped as usize);
        self.suspended_until = Some(now.saturating_add(FOLLOW_SUSPEND_MS));
    }

    /// Moves the browsing cursor by `delta`, clamped to `len`, and holds
    /// auto-follow off while the user reads.
    pub fn browse(&mut self, delta: isize, len: usize, active: Option<usize>)
        ensures
            len == 0 ==> *final(self) == *old(self),
            len > 0 ==> (final(self).cursor matches Some(c) && c < len),
            len > 0 ==> final(self).suspended_until is Some,
    {
        let now = self.now_ms();
        self.browse_at(delta, len, active, now);
    }

    /// Returns to following playback immediately.
    pub fn follow_now(&mut self)
        ensures
            *final(self) == (LyricsView { cursor: None, suspended_until: None, ..*old(self) }),
    {
        self.cursor = None;
        self.suspended_until = None;
    }

    /// Drops the scroll and any browsing cursor (a new track started).
    pub fn reset(&mut self)
        ensures
            *final(self) == old(self).spec_reset(),
    {
        self.scroll = 0;
        self.follow_now();
    }

    /// Records at reading `now` that the sung line moved on.
    pub fn mark_line_changed_at(&mut self, now: u128)
        ensures
            *final(self) == (LyricsView { line_changed_at: Some(now), ..*old(self) }),
    {
        self.line_changed_at = Some(now);
    }

    /// Records that the sung line moved on.
    pub fn mark_line_changed(&mut self)
        ensures
            final(self).line_changed_at is Some,
            *final(self) == (LyricsView { line_changed_at: final(self).line_changed_at, ..*old(self) }),
    {
        let now = self.now_ms();
        self.mark_line_changed_at(now);
    }

    /// Milliseconds since the sung line changed at reading `now`, or `None`
    /// when no change was seen (the line is already settled).
    pub fn line_entry_elapsed_at(&self, now: u128) -> (r: Option<u128>)
        ensures
            r == (match self.line_changed_at {
                Some(at) => Some(if now >= at { (now - at) as u128 } else { 0u128 }),
                None => None,
            }),
    {
        match self.line_changed_at {
            Some(at) => Some(now.saturating_sub(at)),
            None => None,
        }
    }

    /// The timing correction, in milliseconds.
    pub fn offset_ms(&self) -> (r: i64)
        ensures
            r == self.offset_ms,
    {
        self.offset_ms
    }

    /// Nudges the timing correction, clamped to ±[`MAX_LYRICS_OFFSET_MS`] so
    /// a stuck key cannot strand the lyrics.
    pub fn adjust_offset(&mut self, delta_ms: i64)
        ensures
            *final(self) == (LyricsView {
                offset_ms: clamp_int(old(self).offset_ms + delta_ms, -10_000, 10_000) as i64,
                ..*old(self)
            }),
    {
        let sum: i128 = self.offset_ms as i128 + delta_ms as i128;
        let clamped: i128 = if sum < -10_000 {
            -10_000
        } else if sum > 10_000 {
            10_000
        } else {
            sum
        };
        self.offset_ms = clamped as i64;
    }

    /// The playback position as the lyrics see it: the correction applied,
    /// saturating at zero.
    pub fn corrected_position_ms(&self, position_ms: u64) -> (r: u64)
        ensures
            r == (if position_ms + self.offset_ms < 0 {
                0
            } else if position_ms + self.offset_ms > u64::MAX {
                u64::MAX as int
            } else {
                position_ms + self.offset_ms
            }),
    {
        let sum: i128 = position_ms as i128 + self.offset_ms as i128;
        if sum < 0 {
            0
        } else if sum > u64::MAX as i128 {
            u64::MAX
        } else {
            sum as u64
        }
    }
}

/// The single source of truth for animation timing.
///
/// Elapsed times are measured in animation time: real milliseconds divided
/// by the speed factor, so a faster speed reaches a fixed threshold sooner.
/// Durations that are set rather than measured (the window of
/// [`Self::kick_at`]) are multiplied by the same factor instead.
#[derive(Debug)]
pub struct AnimationClock {
    pub speed: AnimationSpeed,
    pub reduced_motion: bool,
    /// Reading at which the running transition ends; `None` when idle.
    pub animate_until: Option<u128>,
    /// Reading at which the Home selection last moved.
    pub selection_changed_at: Option<u128>,
    /// Reading at which the current track started.
    pub track_changed_at: u128,
    /// Reading at which the application started.
    pub booted_at: u128,
    /// Reading at which the open section last changed.
    pub section_changed_at: Option<u128>,
    /// Clock origin of the readings above.
    pub origin: Instant,
}

/// `base_ms` scaled by the speed factor, rounded to the nearest millisecond.
pub open spec fn scaled_window(speed: AnimationSpeed, base_ms: u64) -> int {
    (base_ms * speed.spec_factor_permille() + 500) / 1000
}

/// `real_ms` in animation time: divided by the speed factor, rounded down.
pub open spec fn spec_scale(speed: AnimationSpeed, real_ms: int) -> int {
    real_ms * 1000 / (speed.spec_factor_permille() as int)
}

/// A reading clamped to the largest value that scaling keeps exact.
pub open spec fn capped(ms: int) -> int {
    if ms > reading_bound() { reading_bound() } else { ms }
}

/// `after` is `before` once the Home selection was marked as moved at some
/// reading of the clock.
pub open spec fn selection_marked(before: AnimationClock, after: AnimationClock) -> bool {
    exists|now: u128| after == (AnimationClock {
        selection_changed_at: Some(now),
        animate_until: #[trigger] before.spec_kicked(220, now),
        ..before
    })
}

/// `after` is `before` once a section change was marked at some reading of
/// the clock.
pub open spec fn section_marked(before: AnimationClock, after: AnimationClock) -> bool {
    exists|now: u128| after == (AnimationClock {
        section_changed_at: Some(now),
        animate_until: #[trigger] before.spec_kicked(180, now),
        ..before
    })
}

/// `after` is `before` once a track change was marked at some reading of
/// the clock.
pub open spec fn track_marked(before: AnimationClock, after: AnimationClock) -> bool {
    exists|now: u128| after == (AnimationClock {
        track_changed_at: now,
        animate_until: #[trigger] before.spec_kicked(300, now),
        ..before
    })
}

/// `a + b`, saturating at the largest reading.
pub open spec fn sat_add(a: int, b: int) -> int {
    if a + b > u128::MAX { u128::MAX as int } else { a + b }
}

/// `a - b`, saturating at zero.
pub open spec fn sat_sub(a: int, b: int) -> int {
    if a < b { 0 } else { a - b }
}

impl AnimationClock {
    /// A clock started now, idle, with nothing moved yet.
    pub fn new(speed: AnimationSpeed, reduced_motion: bool) -> (r: AnimationClock)
        ensures
            r.speed == speed,
            r.reduced_motion == reduced_motion,
            r.animate_until is None,
            r.selection_changed_at is None,
            r.section_changed_at is None,
            r.track_changed_at == 0,
            r.booted_at == 0,
    {
        AnimationClock {
            speed,
            reduced_motion,
            animate_until: None,
            selection_changed_at: None,
            track_changed_at: 0,
            booted_at: 0,
            section_changed_at: None,
            origin: instant_now(),
        }
    }

    /// The current clock reading of this clock.
    pub fn now_ms(&self) -> u128 {
        millis_since(&self.origin)
    }

    pub fn speed(&self) -> (r: AnimationSpeed)
        ensures
            r == self.speed,
    {
        self.speed
    }

    pub fn reduced_motion(&self) -> (r: bool)
        ensures
            r == self.reduced_motion,
    {
        self.reduced_motion
    }

    pub fn set_speed(&mut self, speed: AnimationSpeed)
        ensures
            *final(self) == (AnimationClock { speed, ..*old(self) }),
    {
        self.speed = speed;
    }

    /// Turning reduced motion on also retires a transition in flight.
    pub fn set_reduced_motion(&mut self, reduced: bool)
        ensures
            *final(self) == (AnimationClock {
                reduced_motion: reduced,
                animate_until: if reduced { None } else { old(self).animate_until },
                ..*old(self)
            }),
    {
        self.reduced_motion = reduced;
        if reduced {
            self.animate_until = None;
        }
    }

    /// The deadline after a kick of `base_ms` at reading `now`.
    pub open spec fn spec_kicked(&self, base_ms: u64, now: u128) -> Option<u128> {
        if self.reduced_motion {
            self.animate_until
        } else {
            let candidate = sat_add(now as int, scaled_window(self.speed, base_ms)) as u128;
            Some(match self.animate_until {
                Some(existing) => if existing >= candidate { existing } else { candidate },
                None => candidate,
            })
        }
    }

    /// Extends the fast-redraw window at reading `now` by `base_ms` scaled by
    /// the speed. Overlapping kicks only extend the deadline; under reduced
    /// motion nothing changes.
    pub fn kick_at(&mut self, base_ms: u64, now: u128)
        ensures
            *final(self) == (AnimationClock { animate_until: old(self).spec_kicked(base_ms, now), ..*old(self) }),
    {
        if self.reduced_motion {
            return;
        }
        let factor: u128 = self.speed.factor_permille() as u128;
        let b: u128 = base_ms as u128;
        assert(b * factor <= 0xffff_ffff_ffff_ffffu128 * 1600) by (nonlinear_arith)
            requires b <= 0xffff_ffff_ffff_ffffu128, factor <= 1600;
        let scaled: u128 = (b * factor + 500) / 1000;
        let candidate = now.saturating_add(scaled);
        self.animate_until = Some(match self.animate_until {
            Some(existing) => if existing >= candidate { existing } else { candidate },
            None => candidate,
        });
    }

    /// Extends the fast-redraw window by `base_ms` from now.
    pub fn kick(&mut self, base_ms: u64)
        ensures
            exists|now: u128| *final(self) == (AnimationClock {
                animate_until: #[trigger] old(self).spec_kicked(base_ms, now),
                ..*old(self)
            }),
    {
        let now = self.now_ms();
        self.kick_at(base_ms, now);
    }

    /// Whether a kicked transition is still running at reading `now`.
    pub fn animating_at(&self, now: u128) -> (r: bool)
        ensures
            r == (match self.animate_until {
                Some(until) => now < until,
                None => false,
            }),
    {
        match self.animate_until {
            Some(until) => now < until,
            None => false,
        }
    }

    /// Whether a kicked transition is still running.
    pub fn animating(&self) -> (r: bool)
        ensures
            self.animate_until is None ==> !r,
    {
        let now = self.now_ms();
        self.animating_at(now)
    }

    /// Records at reading `now` that the Home selection moved, and kicks a
    /// 220 ms window for the card's staged reveal.
    pub fn mark_selection_changed_at(&mut self, now: u128)
        ensures
            *final(self) == (AnimationClock {
                selection_changed_at: Some(now),
                animate_until: old(self).spec_kicked(220, now),
                ..*old(self)
            }),
    {
        self.selection_changed_at = Some(now);
        self.kick_at(220, now);
    }

    /// Records that the Home selection moved.
    pub fn mark_selection_changed(&mut self)
        ensures
            selection_marked(*old(self), *final(self)),
    {
        let now = self.now_ms();
        self.mark_selection_changed_at(now);
    }

    /// Records at reading `now` that the track changed, and kicks a 300 ms
    /// window for the now-playing fade.
    pub fn mark_track_changed_at(&mut self, now: u128)
        ensures
            *final(self) == (AnimationClock {
                track_changed_at: now,
                animate_until: old(self).spec_kicked(300, now),
                ..*old(self)
            }),
    {
        self.track_changed_at = now;
        self.kick_at(300, now);
    }

    /// Records that the track changed.
    pub fn mark_track_changed(&mut self)
        ensures
            track_marked(*old(self), *final(self)),
    {
        let now = self.now_ms();
        self.mark_track_changed_at(now);
    }

    /// Records at reading `now` that the open section changed, and kicks a
    /// 180 ms window for the staggered row reveal.
    pub fn mark_section_changed_at(&mut self, now: u128)
        ensures
            *final(self) == (AnimationClock {
                section_changed_at: Some(now),
                animate_until: old(self).spec_kicked(180, now),
                ..*old(self)
            }),
    {
        self.section_changed_at = Some(now);
        self.kick_at(180, now);
    }

    /// Records that the open section changed.
    pub fn mark_section_changed(&mut self)
        ensures
            section_marked(*old(self), *final(self)),
    {
        let now = self.now_ms();
        self.mark_section_changed_at(now);
    }

    /// `real_ms` in animation time (see [`spec_scale`]).
    pub fn scale(&self, real_ms: u64) -> (r: u128)
        ensures
            r == spec_scale(self.speed, real_ms as int),
    {
        let factor: u128 = self.speed.factor_permille() as u128;
        (real_ms as u128 * 1000) / factor
    }

    /// Animation time elapsed from reading `at` to reading `now` (readings
    /// beyond the scaling bound are capped).
    pub fn elapsed_scaled(&self, at: u128, now: u128) -> (r: u128)
        ensures
            r == spec_scale(self.speed, capped(sat_sub(now as int, at as int))),
    {
        let real_ms = now.saturating_sub(at);
        let real64: u64 = if real_ms > u64::MAX as u128 { u64::MAX } else { real_ms as u64 };
        self.scale(real64)
    }

    /// Animation time since the section changed at reading `now`, or `None`
    /// when it never has.
    pub fn since_section_change_ms_at(&self, now: u128) -> (r: Option<u128>)
        ensures
            r == (match self.section_changed_at {
                Some(at) => Some(spec_scale(self.speed, capped(sat_sub(now as int, at as int))) as u128),
                None => None,
            }),
    {
        match self.section_changed_at {
            Some(at) => Some(self.elapsed_scaled(at, now)),
            None => None,
        }
    }

    /// Animation time since the section changed, or `None` when it never has.
    pub fn since_section_change_ms(&self) -> (r: Option<u128>)
        ensures
            r is Some == self.section_changed_at is Some,
    {
        let now = self.now_ms();
        self.since_section_change_ms_at(now)
    }

    /// Whether the Home selection has ever moved.
    pub fn selection_ever_changed(&self) -> (r: bool)
        ensures
            r == self.selection_changed_at is Some,
    {
        self.selection_changed_at.is_some()
    }

    /// Animation time since the selection moved at reading `now`, or `None`
    /// when it never has.
    pub fn since_selection_ms_at(&self, now: u128) -> (r: Option<u128>)
        ensures
            r == (match self.selection_changed_at {
                Some(at) => Some(spec_scale(self.speed, capped(sat_sub(now as int, at as int))) as u128),
                None => None,
            }),
    {
        match self.selection_changed_at {
            Some(at) => Some(self.elapsed_scaled(at, now)),
            None => None,
        }
    }

    /// Animation time since the selection moved, or `None` when it never has.
    pub fn since_selection_ms(&self) -> (r: Option<u128>)
        ensures
            r is Some == self.selection_changed_at is Some,
    {
        let now = self.now_ms();
        self.since_selection_ms_at(now)
    }

    /// Animation time since the track started at reading `now`.
    pub fn since_track_change_ms_at(&self, now: u128) -> (r: u128)
        ensures
            r == spec_scale(self.speed, capped(sat_sub(now as int, self.track_changed_at as int))),
    {
        self.elapsed_scaled(self.track_changed_at, now)
    }

    /// Animation time since the track started.
    pub fn since_track_change_ms(&self) -> u128 {
        let now = self.now_ms();
        self.since_track_change_ms_at(now)
    }

    /// Animation time since the application started at reading `now`.
    pub fn since_boot_ms_at(&self, now: u128) -> (r: u128)
        ensures
            r == spec_scale(self.speed, capped(sat_sub(now as int, self.booted_at as int))),
    {
        self.elapsed_scaled(self.booted_at, now)
    }

    /// Animation time since the application started.
    pub fn since_boot_ms(&self) -> u128 {
        let now = self.now_ms();
        self.since_boot_ms_at(now)
    }
}

/// Law: scaling is monotone in the speed — for the same real time, a faster
/// speed reaches at least as far in animation time, and normal speed is the
/// identity.
pub proof fn lemma_faster_speeds_reach_thresholds_sooner(real_ms: nat)
    ensures
        spec_scale(AnimationSpeed::Fast, real_ms as int) >= spec_scale(AnimationSpeed::Normal, real_ms as int),
        spec_scale(AnimationSpeed::Normal, real_ms as int) >= spec_scale(AnimationSpeed::Slow, real_ms as int),
        spec_scale(AnimationSpeed::Normal, real_ms as int) == real_ms,
{
    assert(real_ms * 1000 / 600 >= real_ms * 1000 / 1000) by (nonlinear_arith);
    assert(real_ms * 1000 / 1000 >= real_ms * 1000 / 1600) by (nonlinear_arith);
    assert(real_ms * 1000 / 1000 == real_ms) by (nonlinear_arith);
}

/// Law: a kick never shortens a running transition, and scales its window
/// with the speed (a slower speed never ends sooner).
pub proof fn lemma_kick_extends_and_scales(c: AnimationClock, base_ms: u64, now: u128)
    requires
        !c.reduced_motion,
    ensures
        c.animate_until matches Some(e) ==> (c.spec_kicked(base_ms, now) matches Some(f) && f >= e),
        scaled_window(AnimationSpeed::Fast, base_ms) <= scaled_window(AnimationSpeed::Normal, base_ms),
        scaled_window(AnimationSpeed::Normal, base_ms) <= scaled_window(AnimationSpeed::Slow, base_ms),
{
    assert((base_ms * 600 + 500) / 1000 <= (base_ms * 1000 + 500) / 1000) by (nonlinear_arith);
    assert((base_ms * 1000 + 500) / 1000 <= (base_ms * 1600 + 500) / 1000) by (nonlinear_arith);
}

} // verus!
