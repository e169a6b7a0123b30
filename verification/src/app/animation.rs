//! Redraw tiers and the periodic tick.
//!
//! The event loop redraws on an adaptive timer; this module answers how
//! often the next frame should come, and applies what changed since the
//! last tick: the spinner, the end of a track, the synced lyric line and the
//! background refresh.

use vstd::prelude::*;
use crate::app::{App, Effect, Section};
use crate::app::home::synced;
use crate::app::playback::auto_advanced;
use crate::lyrics::{LyricsState, advance_active_line, is_last_started, none_started, sorted_by_start};
use crate::models::LyricLine;
use crate::ui::splash::spec_phase_at;
use crate::ui::state::{capped, sat_sub, spec_scale};

verus! {

/// Whether the entry animation runs at clock reading `now`.
pub open spec fn splash_running_at(app: App, now: u128) -> bool {
    let since = spec_scale(app.ui.anim.speed, capped(sat_sub(now as int, app.ui.anim.booted_at as int)));
    app.ui.splash_running && !(spec_phase_at(since) is Done)
}

/// The state after the spinner advanced, when something loads.
pub open spec fn spun(before: App) -> App {
    App {
        spinner_frame: if before.busy_tasks > 0 || before.loading_audio {
            if before.spinner_frame == usize::MAX { 0 } else { (before.spinner_frame + 1) as usize }
        } else {
            before.spinner_frame
        },
        ..before
    }
}

/// Whether `after` is `before` with the synced lyric line moved to the one
/// sung at `position_ms`: on lines in time order, the last line that has
/// started (`None` before the first).
pub open spec fn lyrics_followed(before: App, position_ms: u64, after: App) -> bool {
    match before.lyrics {
        LyricsState::Synced { lines, active } => {
            &&& after.lyrics matches LyricsState::Synced { lines: l, active: a } && l == lines && (match a {
                Some(i) => i < lines@.len() && (sorted_by_start(lines@) ==> is_last_started(lines@, position_ms, i as int)),
                None => sorted_by_start(lines@) ==> none_started(lines@, position_ms),
            })
            &&& after == (App { lyrics: after.lyrics, ..before })
        },
        _ => after == before,
    }
}

/// Whether `a` and `e` are what the first stage of a tick gives on
/// `before`: the spinner advances, and when the audio finished and nothing
/// is downloading, playback moves on (see [`auto_advanced`]).
pub open spec fn ticked(before: App, finished: bool, a: App, e: Option<Effect>) -> bool {
    let s = spun(before);
    if finished && !s.loading_audio {
        auto_advanced(s, a, e)
    } else {
        a == s && e is None
    }
}

/// Whether `after` and `s` are what the last stage of a tick gives on
/// `before`: the background refresh when it is due, nothing otherwise.
pub open spec fn tick_synced(before: App, sync_due: bool, after: App, s: Seq<Effect>) -> bool {
    if sync_due { synced(before, after, s) } else { after == before && s.len() == 0 }
}

/// `state` with the synced line moved to the one sung at `position_ms`.
fn followed(state: LyricsState, position_ms: u64) -> (r: LyricsState)
    ensures
        match state {
            LyricsState::Synced { lines, active } => r matches LyricsState::Synced { lines: l, active: a } && l == lines && (match a {
                Some(i) => i < lines@.len() && (sorted_by_start(lines@) ==> is_last_started(lines@, position_ms, i as int)),
                None => sorted_by_start(lines@) ==> none_started(lines@, position_ms),
            }),
            _ => r == state,
        },
{
    match state {
        LyricsState::Synced { lines, active } => {
            let cursor = match active {
                Some(c) => if c < lines.len() { Some(c) } else { None },
                None => None,
            };
            let next = advance_active_line(lines.as_slice(), cursor, position_ms);
            LyricsState::Synced { lines, active: next }
        },
        other => other,
    }
}

impl App {
    /// Whether frequent redraws help: a spinner turns or playback advances.
    pub fn needs_animation(&self) -> (r: bool)
        ensures
            r == (self.busy_tasks > 0 || self.loading_audio || (self.current is Some && !self.paused)),
    {
        self.is_loading() || (self.current.is_some() && !self.paused)
    }

    /// Whether the fastest redraw tier is needed at clock reading `now`:
    /// the entry animation, a kicked transition, or, unless motion is
    /// reduced, the visualizer or the karaoke wipe of a playing track.
    pub fn needs_fast_animation_at(&self, now: u128) -> (r: bool)
        ensures
            r == self.spec_needs_fast(now),
    {
        let since = self.ui.anim.since_boot_ms_at(now);
        if self.ui.splash_phase_at(since).is_some() {
            return true;
        }
        if self.ui.anim.animating_at(now) {
            return true;
        }
        if self.ui.anim.reduced_motion() {
            return false;
        }
        let animated_section = match self.section {
            Section::Inicio => true,
            Section::Letra => match self.lyrics {
                LyricsState::Synced { .. } => true,
                _ => false,
            },
            _ => false,
        };
        animated_section && self.current.is_some() && !self.paused
    }

    /// Whether the fastest redraw tier is needed now (see
    /// [`Self::needs_fast_animation_at`]).
    pub fn needs_fast_animation(&self) -> (r: bool)
        ensures
            exists|now: u128| r == #[trigger] self.spec_needs_fast(now),
    {
        let now = self.ui.anim.now_ms();
        let r = self.needs_fast_animation_at(now);
        assert(r == self.spec_needs_fast(now));
        r
    }

    /// The fast tier at clock reading `now` (see
    /// [`Self::needs_fast_animation_at`]).
    pub open spec fn spec_needs_fast(&self, now: u128) -> bool {
        splash_running_at(*self, now)
            || (self.ui.anim.animate_until matches Some(until) && now < until)
            || (!self.ui.anim.reduced_motion
                && (self.section == Section::Inicio || (self.section == Section::Letra && self.lyrics is Synced))
                && self.current is Some && !self.paused)
    }

    /// Advances the spinner while something loads.
    fn spin(&mut self)
        ensures
            *final(self) == spun(*old(self)),
    {
        if self.is_loading() {
            self.spinner_frame = if self.spinner_frame == usize::MAX { 0 } else { self.spinner_frame + 1 };
        }
    }

    /// Moves the synced lyric line to the one sung at `position_ms`.
    fn follow_lyrics(&mut self, position_ms: u64)
        ensures
            lyrics_followed(*old(self), position_ms, *final(self)),
    {
        let mut state = LyricsState::Pending;
        core::mem::swap(&mut state, &mut self.lyrics);
        self.lyrics = followed(state, position_ms);
    }

    /// The first stage of a tick (see [`ticked`]).
    fn tick_advance(&mut self, finished: bool) -> (r: Option<Effect>)
        requires
            old(self).wf(),
        ensures
            final(self).wf(),
            ticked(*old(self), finished, *final(self), r),
    {
        self.spin();
        if finished && !self.loading_audio {
            self.advance_auto()
        } else {
            None
        }
    }

    /// The last stage of a tick (see [`tick_synced`]).
    fn tick_sync(&mut self, sync_due: bool) -> (r: Vec<Effect>)
        ensures
            tick_synced(*old(self), sync_due, *final(self), r@),
    {
        if sync_due {
            self.sync_home_and_library()
        } else {
            Vec::new()
        }
    }

    /// One tick of the event loop: the spinner advances; when the audio
    /// finished (`finished`) and nothing is downloading, playback moves on;
    /// the synced lyric line follows the position `position_ms`; and when
    /// the refresh interval elapsed (`sync_due`), Home and the library are
    /// refreshed.
    #[verifier::spinoff_prover]
    #[verifier::rlimit(40)]
    pub fn tick(&mut self, finished: bool, position_ms: u64, sync_due: bool) -> (r: Vec<Effect>)
        requires
            old(self).wf(),
        ensures
            final(self).wf(),
            exists|a: App, b: App, e: Option<Effect>, s: Seq<Effect>| {
                &&& #[trigger] ticked(*old(self), finished, a, e)
                &&& #[trigger] lyrics_followed(a, position_ms, b)
                &&& #[trigger] tick_synced(b, sync_due, *final(self), s)
                &&& r@ == (match e { Some(x) => seq![x], None => Seq::empty() }) + s
            },
    {
        let e = self.tick_advance(finished);
        let ghost a = *self;
        self.follow_lyrics(position_ms);
        let ghost b = *self;
        let more = self.tick_sync(sync_due);
        let mut effects: Vec<Effect> = Vec::new();
        let ghost e0 = e;
        match e {
            Some(x) => effects.push(x),
            None => {},
        }
        let ghost first = effects@;
        assert(first =~= (match e0 { Some(x) => seq![x], None => Seq::<Effect>::empty() }));
        let mut more = more;
        let ghost rest = more@;
        effects.append(&mut more);
        assert(effects@ =~= first + rest);
        assert(ticked(*old(self), finished, a, e0));
        assert(lyrics_followed(a, position_ms, b));
        assert(tick_synced(b, sync_due, *self, rest));
        effects
    }
}

} // verus!
