//! Driving playback: starting tracks, moving between them, and the state
//! that follows the current track.
//!
//! The queue decides what plays (see [`crate::app::queue`]); this module
//! updates the state for it and describes, as an [`Effect`], the audio,
//! lyrics and cover work that the event loop performs.

use vstd::prelude::*;
use crate::app::{distinct_strings, App, Effect, MAX_DRAWS, RECENT_CAP, RepeatMode};
use crate::app::navigation::selected_or_first;
use crate::app::queue::{next_of, redraw, spec_next_step, track_ids, wraps};
use crate::lyrics::LyricsState;
use crate::models::{Track, TrackView, tracks_view};
use crate::provider::AuthState;
use crate::text::{copy_string, lemma_without_absent, push_str, str_eq, string_from, string_views, strings_contain, strings_without, without_str};
use crate::ui::state::{LyricsView, UiState, clamp_int, track_marked};

verus! {

/// The tracks of `s` whose identifier is not `id`, in order.
pub open spec fn without_id(s: Seq<TrackView>, id: Seq<char>) -> Seq<TrackView>
    decreases s.len(),
{
    if s.len() == 0 {
        Seq::empty()
    } else {
        let rest = without_id(s.drop_last(), id);
        if s.last().video_id == id {
            rest
        } else {
            rest.push(s.last())
        }
    }
}

/// The history after `t` played: `t` first, no other entry with its
/// identifier, at most [`RECENT_CAP`] entries.
pub open spec fn remembered(recent: Seq<TrackView>, t: TrackView) -> Seq<TrackView> {
    let all = seq![t] + without_id(recent, t.video_id);
    if all.len() > RECENT_CAP { all.take(RECENT_CAP as int) } else { all }
}

proof fn lemma_without_id_len(s: Seq<TrackView>, id: Seq<char>)
    ensures
        without_id(s, id).len() <= s.len(),
    decreases s.len(),
{
    if s.len() > 0 {
        lemma_without_id_len(s.drop_last(), id);
    }
}

/// The played set after `id` joined it.
pub open spec fn with_played(played: Seq<Seq<char>>, id: Seq<char>) -> Seq<Seq<char>> {
    if played.contains(id) { played } else { played.push(id) }
}

/// Whether `after` is `before` once queue entry `idx` started playing,
/// with `played` as the played set of the shuffle cycle (see
/// [`App::start_current`]).
#[verifier::opaque]
pub open spec fn started(before: App, played: Seq<Seq<char>>, idx: int, after: App) -> bool {
    let t = before.queue@[idx];
    let played1 = if before.shuffle { with_played(played, t.video_id@) } else { played };
    let step = spec_next_step(before.spec_queue_ids(), played1, before.shuffle, before.rng_state, idx, wraps(before.repeat));
    &&& after == (App {
        current: after.current,
        recent: after.recent,
        lyrics: LyricsState::Pending,
        has_artwork: false,
        clear_screen: true,
        loading_audio: true,
        status: after.status,
        ui: UiState { anim: after.ui.anim, lyrics: before.ui.lyrics.spec_reset(), ..before.ui },
        next_index: after.next_index,
        rng_state: step.rng,
        shuffle_played: after.shuffle_played,
        ..before
    })
    &&& after.current matches Some(c) && c@ == t@
    &&& tracks_view(after.recent@) == remembered(tracks_view(before.recent@), t@)
    &&& track_marked(before.ui.anim, after.ui.anim)
    &&& after.status@ == "Baixando \""@ + t.title@ + "\"..."@
    &&& match after.next_index {
        Some(n) => step.next == Some(n as int),
        None => step.next is None,
    }
    &&& after.spec_played() == (if step.restart { Seq::empty() } else { played1 })
}

/// `started` reads the played set only through its `played` argument.
pub proof fn lemma_started_frame(b1: App, b2: App, played: Seq<Seq<char>>, idx: int, after: App)
    requires
        b1 == (App { shuffle_played: b1.shuffle_played, ..b2 }),
    ensures
        started(b1, played, idx, after) == started(b2, played, idx, after),
{
    reveal(started);
}

/// The queue a start leaves is the one it started from.
pub proof fn lemma_started_queue(before: App, played: Seq<Seq<char>>, idx: int, after: App)
    requires
        started(before, played, idx, after),
    ensures
        after.queue == before.queue,
        after.queue_index == before.queue_index,
        after.pending_radio_seed == before.pending_radio_seed,
        after.capabilities == before.capabilities,
{
    reveal(started);
}

/// Whether `r` asks to play queue entry `idx` of `before`, with the lyrics
/// fetch, pre-fetch and history write that `after` calls for.
pub open spec fn plays(before: App, idx: int, after: App, r: Option<Effect>) -> bool {
    r matches Some(Effect::Play { track, fetch_lyrics, prefetch, save_history })
        && track@ == before.queue@[idx]@
        && fetch_lyrics == before.capabilities.lyrics
        && prefetch == after.next_index
        && save_history == before.persist_recent
}

/// The position a manual skip moves to from `idx`: the chosen next entry,
/// or the first when none is.
pub open spec fn skip_target(before: App, idx: int) -> int {
    match next_of(before, idx, true) {
        Some(n) => n,
        None => 0,
    }
}

/// `before` with the playing position at `n` and the generator and played
/// set as choosing the next entry after `idx` leaves them.
pub open spec fn skipped(before: App, idx: int, n: int) -> App {
    let step = spec_next_step(before.spec_queue_ids(), before.spec_played(), before.shuffle, before.rng_state, idx, true);
    App { queue_index: Some(n as usize), rng_state: step.rng, ..before }
}

/// The played set after choosing the next entry after `idx`.
pub open spec fn played_after(before: App, idx: int, allow_wrap: bool) -> Seq<Seq<char>> {
    let step = spec_next_step(before.spec_queue_ids(), before.spec_played(), before.shuffle, before.rng_state, idx, allow_wrap);
    if step.restart { Seq::empty() } else { before.spec_played() }
}

/// The position going back from the playing position lands on: the
/// previous entry, wrapping to the last; shuffled, a drawn entry other than
/// the playing one (see [`crate::app::queue::redraw`]).
pub open spec fn prev_target(before: App) -> int {
    let len = before.queue@.len() as int;
    let idx = selected_or_first(before.queue_index);
    if before.shuffle && len > 1 {
        match redraw(before.rng_state, idx, len, MAX_DRAWS as nat).1 {
            Some(m) => m,
            None => (idx + 1) % len,
        }
    } else if idx == 0 {
        len - 1
    } else {
        idx - 1
    }
}

/// The generator state after going back from the playing position.
pub open spec fn prev_rng(before: App) -> u64 {
    let len = before.queue@.len() as int;
    if before.shuffle && len > 1 {
        redraw(before.rng_state, selected_or_first(before.queue_index), len, MAX_DRAWS as nat).0
    } else {
        before.rng_state
    }
}

/// Whether `after` and `r` are what seeking to the lyric line in focus at
/// clock reading `now` gives (see [`App::seek_to_focused_lyric_at`]).
pub open spec fn lyric_seek(before: App, now: u128, after: App, r: Option<Effect>) -> bool {
    match before.lyrics {
        LyricsState::Synced { lines, active } => match before.ui.lyrics.spec_focused_line(active, now) {
            Some(i) if i < lines@.len() => {
                let line = lines@[i as int];
                &&& r == Some(Effect::SeekTo {
                    ms: clamp_int(line.start_ms - before.ui.lyrics.offset_ms, 0, u64::MAX as int) as u64,
                })
                &&& after == (App {
                    ui: UiState {
                        lyrics: LyricsView { cursor: None, suspended_until: None, ..before.ui.lyrics },
                        ..before.ui
                    },
                    status: after.status,
                    ..before
                })
                &&& after.status@ == "↷ "@ + line.text@
            },
            _ => r is None && after == before,
        },
        _ => r is None && after == before,
    }
}

/// Whether `after` is `before` once playback stopped: nothing plays or
/// downloads, the lyrics and the browsing cursor go, and, when a track was
/// on, the cover goes and the stop is reported. The queue stays.
pub open spec fn stopped(before: App, after: App) -> bool {
    let had_track = before.current is Some || before.loading_audio;
    &&& after == (App {
        current: None,
        loading_audio: false,
        lyrics: LyricsState::Pending,
        ui: UiState { lyrics: before.ui.lyrics.spec_reset(), ..before.ui },
        has_artwork: if had_track { false } else { before.has_artwork },
        clear_screen: if had_track { true } else { before.clear_screen },
        status: after.status,
        ..before
    })
    &&& had_track ==> after.status@ == "⏹ Reprodução parada."@
    &&& !had_track ==> after.status == before.status
}

/// Whether `after` and `r` are what a manual skip forward gives on
/// `before` (see [`App::next_track`]).
pub open spec fn skipped_forward(before: App, after: App, r: Option<Effect>) -> bool {
    &&& before.queue@.len() == 0 ==> r is None && after == before
    &&& before.queue@.len() > 0 ==> ({
        let idx = selected_or_first(before.queue_index);
        let n = skip_target(before, idx);
        &&& started(skipped(before, idx, n), played_after(before, idx, true), n, after)
        &&& plays(before, n, after, r)
    })
}

/// Whether `after` and `r` are what going back to the previous entry gives
/// on `before` (see [`App::prev_track`]).
pub open spec fn skipped_back(before: App, after: App, r: Option<Effect>) -> bool {
    &&& before.queue@.len() == 0 ==> r is None && after == before
    &&& before.queue@.len() > 0 ==> ({
        let p = prev_target(before);
        &&& started(
            App { queue_index: Some(p as usize), rng_state: prev_rng(before), ..before },
            before.spec_played(),
            p,
            after,
        )
        &&& plays(before, p, after, r)
    })
}

/// Whether `after` and `r` are what the end of the playing track gives on
/// `before` (see [`App::advance_auto`]).
pub open spec fn auto_advanced(before: App, after: App, r: Option<Effect>) -> bool {
    &&& before.queue@.len() == 0 ==> r is None && after == before
    &&& before.queue@.len() > 0 && before.repeat == RepeatMode::One ==> match before.queue_index {
        Some(idx) => started(before, before.spec_played(), idx as int, after) && plays(before, idx as int, after, r),
        None => r is None && after == before,
    }
    &&& before.queue@.len() > 0 && before.repeat != RepeatMode::One ==> match before.next_index {
        Some(n) => ended_or_moved_on(before, before.spec_played(), Some(n as int), after, r),
        None => match before.queue_index {
            Some(idx) => ended_or_moved_on(
                App { rng_state: drawn_state(before, idx as int), ..before },
                played_after(before, idx as int, wraps(before.repeat)),
                next_of(before, idx as int, wraps(before.repeat)),
                after,
                r,
            ),
            None => ended_or_moved_on(before, before.spec_played(), None, after, r),
        },
    }
}

/// The generator state after choosing the next entry after `idx`.
pub open spec fn drawn_state(before: App, idx: int) -> u64 {
    spec_next_step(before.spec_queue_ids(), before.spec_played(), before.shuffle, before.rng_state, idx, wraps(before.repeat)).rng
}

/// Whether `after` is `before` once a drained queue stopped: nothing plays
/// and the cover is gone.
pub open spec fn finished(before: App, after: App) -> bool {
    &&& after == (App {
        current: None,
        has_artwork: false,
        clear_screen: true,
        loading_audio: false,
        status: after.status,
        ..before
    })
    &&& after.status@ == "Fila concluída."@
}

/// Whether `after` and `r` are what comes once the next entry is `next`,
/// with `played` as the played set: that entry plays; or, when there is
/// none, a radio around the playing track is asked for (autoplay on and the
/// provider offers radios), or the queue ends.
pub open spec fn ended_or_moved_on(before: App, played: Seq<Seq<char>>, next: Option<int>, after: App, r: Option<Effect>) -> bool {
    match next {
        Some(n) => {
            &&& started(App { queue_index: Some(n as usize), ..before }, played, n, after)
            &&& plays(before, n, after, r)
        },
        None => {
            let radio = before.autoplay && before.capabilities.radio
                && (before.current matches Some(t) && t.video_id@.len() > 0);
            &&& radio ==> (r matches Some(Effect::Radio { seed }) && seed@ == before.current->0.video_id@)
                && after == (App { status: after.status, ..before })
                && after.status@ == "📻 Fila concluída — carregando rádio..."@
            &&& !radio ==> (r matches Some(Effect::StopPlayer) && finished(before, after))
            &&& after.spec_played() == played
        },
    }
}

/// `ended_or_moved_on` reads the played set only through its `played`
/// argument when an entry plays, and keeps it otherwise.
proof fn lemma_ended_frame(b1: App, b2: App, played: Seq<Seq<char>>, next: Option<int>, after: App, r: Option<Effect>)
    requires
        b1 == (App { shuffle_played: b1.shuffle_played, ..b2 }),
        next is None ==> b1.shuffle_played == b2.shuffle_played,
        ended_or_moved_on(b1, played, next, after, r),
    ensures
        ended_or_moved_on(b2, played, next, after, r),
{
    reveal(ended_or_moved_on);
    match next {
        Some(n) => {
            lemma_started_frame(
                App { queue_index: Some(n as usize), ..b1 },
                App { queue_index: Some(n as usize), ..b2 },
                played,
                n,
                after,
            );
        },
        None => {},
    }
}

/// The tracks of `recent` without those whose identifier is `id`.
fn recent_without(recent: &Vec<Track>, id: &String) -> (r: Vec<Track>)
    ensures
        tracks_view(r@) == without_id(tracks_view(recent@), id@),
{
    let mut out: Vec<Track> = Vec::new();
    let mut i: usize = 0;
    while i < recent.len()
        invariant
            i <= recent@.len(),
            tracks_view(out@) == without_id(tracks_view(recent@.take(i as int)), id@),
        decreases recent@.len() - i,
    {
        proof {
            assert(tracks_view(recent@.take(i + 1)).drop_last() =~= tracks_view(recent@.take(i as int)));
        }
        if !str_eq(recent[i].video_id.as_str(), id.as_str()) {
            out.push(recent[i].duplicate());
            proof {
                assert(tracks_view(out@) =~= without_id(tracks_view(recent@.take(i as int)), id@).push(recent@[i as int]@));
            }
        }
        i = i + 1;
    }
    assert(recent@.take(recent@.len() as int) =~= recent@);
    out
}

impl App {
    /// Whether `video_id` is the playing track. Results of slow work
    /// started for a track the user has since skipped are discarded.
    pub fn is_current_track(&self, video_id: &str) -> (r: bool)
        ensures
            r == (self.current matches Some(t) && t.video_id@ == video_id@),
    {
        match &self.current {
            Some(t) => str_eq(t.video_id.as_str(), video_id),
            None => false,
        }
    }

    /// Drops the cover and asks for a full clear before the next draw, so
    /// graphics left by the previous cover do not linger.
    pub fn clear_artwork(&mut self)
        ensures
            *final(self) == (App { has_artwork: false, clear_screen: true, ..*old(self) }),
    {
        self.has_artwork = false;
        self.clear_screen = true;
    }

    /// Records `track` in the history: first, without duplicates, at most
    /// [`RECENT_CAP`] entries.
    pub(crate) fn remember_recent(&mut self, track: &Track)
        ensures
            *final(self) == (App { recent: final(self).recent, ..*old(self) }),
            tracks_view(final(self).recent@) == remembered(tracks_view(old(self).recent@), track@),
    {
        let rest = recent_without(&self.recent, &track.video_id);
        let mut out: Vec<Track> = Vec::new();
        out.push(track.duplicate());
        let mut i: usize = 0;
        let ghost all = seq![track@] + without_id(tracks_view(old(self).recent@), track.video_id@);
        while i < rest.len() && out.len() < RECENT_CAP
            invariant
                i <= rest@.len(),
                out@.len() == i + 1,
                out@.len() <= RECENT_CAP,
                tracks_view(rest@) == without_id(tracks_view(old(self).recent@), track.video_id@),
                all == seq![track@] + tracks_view(rest@),
                tracks_view(out@) == all.take(i + 1),
            decreases rest@.len() - i,
        {
            out.push(rest[i].duplicate());
            i = i + 1;
            proof {
                assert(tracks_view(out@) =~= all.take(i + 1));
            }
        }
        proof {
            if all.len() <= RECENT_CAP {
                assert(all.take(i + 1) =~= all);
            }
        }
        self.recent = out;
    }

    /// Adds `id` to the played set of the shuffle cycle.
    fn mark_played(&mut self, id: &String)
        ensures
            *final(self) == (App { shuffle_played: final(self).shuffle_played, ..*old(self) }),
            final(self).spec_played() == with_played(old(self).spec_played(), id@),
            distinct_strings(old(self).shuffle_played@) ==> distinct_strings(final(self).shuffle_played@),
    {
        let mut i: usize = 0;
        while i < self.shuffle_played.len()
            invariant
                i <= self.shuffle_played@.len(),
                forall|j: int| 0 <= j < i ==> self.shuffle_played@[j]@ != id@,
            decreases self.shuffle_played@.len() - i,
        {
            if str_eq(self.shuffle_played[i].as_str(), id.as_str()) {
                assert(self.spec_played()[i as int] == id@);
                return;
            }
            i = i + 1;
        }
        proof {
            if self.spec_played().contains(id@) {
                let j = choose|j: int| 0 <= j < self.spec_played().len() && self.spec_played()[j] == id@;
                assert(self.shuffle_played@[j]@ == id@);
            }
        }
        let ghost before = self.spec_played();
        let ghost old_played = self.shuffle_played@;
        self.shuffle_played.push(copy_string(id));
        assert(self.spec_played() =~= before.push(id@));
        proof {
            if distinct_strings(old_played) {
                assert forall|a: int, b: int| 0 <= a < b < self.shuffle_played@.len()
                    implies #[trigger] self.shuffle_played@[a]@ != #[trigger] self.shuffle_played@[b]@ by {
                    if b < old_played.len() {
                        assert(self.shuffle_played@[a] == old_played[a]);
                        assert(self.shuffle_played@[b] == old_played[b]);
                    } else {
                        assert(self.shuffle_played@[a] == old_played[a]);
                    }
                }
            }
        }
    }

    /// Makes `track` the playing track: records it, drops the lyrics, the
    /// browsing cursor and the cover of the previous one, and reports the
    /// download.
    fn begin_track(&mut self, track: &Track)
        ensures
            *final(self) == (App {
                current: final(self).current,
                recent: final(self).recent,
                lyrics: LyricsState::Pending,
                has_artwork: false,
                clear_screen: true,
                loading_audio: true,
                status: final(self).status,
                ui: UiState { anim: final(self).ui.anim, lyrics: old(self).ui.lyrics.spec_reset(), ..old(self).ui },
                shuffle_played: final(self).shuffle_played,
                ..*old(self)
            }),
            final(self).current matches Some(c) && c@ == track@,
            tracks_view(final(self).recent@) == remembered(tracks_view(old(self).recent@), track@),
            track_marked(old(self).ui.anim, final(self).ui.anim),
            final(self).status@ == "Baixando \""@ + track.title@ + "\"..."@,
            final(self).spec_played() == (if old(self).shuffle {
                with_played(old(self).spec_played(), track.video_id@)
            } else {
                old(self).spec_played()
            }),
            !old(self).shuffle ==> final(self).shuffle_played == old(self).shuffle_played,
            distinct_strings(old(self).shuffle_played@) ==> distinct_strings(final(self).shuffle_played@),
    {
        self.current = Some(track.duplicate());
        self.ui.anim.mark_track_changed();
        if self.shuffle {
            self.mark_played(&track.video_id);
        }
        self.remember_recent(track);
        self.lyrics = LyricsState::Pending;
        self.ui.lyrics.reset();
        self.clear_artwork();
        self.loading_audio = true;
        let mut status = string_from("Baixando \"");
        push_str(&mut status, track.title.as_str());
        push_str(&mut status, "\"...");
        self.status = status;
    }

    /// Starts the queue entry at the playing position: updates the state
    /// (see [`started`]) and asks for its audio, lyrics and cover.
    pub fn start_current(&mut self) -> (r: Option<Effect>)
        requires
            old(self).wf(),
        ensures
            final(self).wf(),
            match old(self).queue_index {
                Some(idx) => started(*old(self), old(self).spec_played(), idx as int, *final(self))
                    && plays(*old(self), idx as int, *final(self), r),
                None => r is None && *final(self) == *old(self),
            },
    {
        let idx = match self.queue_index {
            Some(i) => i,
            None => {
                return None;
            },
        };
        let track = self.queue[idx].duplicate();
        let ghost before = *self;
        self.begin_track(&track);
        proof {
            assert(self.spec_queue_ids() == before.spec_queue_ids());
        }
        let allow_wrap = match self.repeat {
            RepeatMode::Off => false,
            _ => true,
        };
        let next = self.compute_next(idx, allow_wrap);
        self.next_index = next;
        proof {
            reveal(started);
            if self.shuffle_played@.len() == 0 {
                assert(self.spec_played() =~= Seq::<Seq<char>>::empty());
            }
        }
        Some(Effect::Play {
            track,
            fetch_lyrics: self.capabilities.lyrics,
            prefetch: next,
            save_history: self.persist_recent,
        })
    }

    /// What `next_track` leaves and returns.
    pub open spec fn next_track_outcome(before: App, after: App, r: Option<Effect>) -> bool {
        &&& after.wf()
        &&& skipped_forward(before, after, r)
    }

    /// Skips to the next queue entry (the `n` key). Unlike the automatic
    /// advance, a manual skip always goes on, wrapping at the end whatever
    /// the repeat mode.
    pub fn next_track(&mut self) -> (r: Option<Effect>)
        requires
            old(self).wf(),
        ensures
            App::next_track_outcome(*old(self), *final(self), r),
    {
        if self.queue.len() == 0 {
            return None;
        }
        let idx = match self.queue_index {
            Some(i) => i,
            None => 0,
        };
        let ghost before = *self;
        let next = match self.compute_next(idx, true) {
            Some(n) => n,
            None => 0,
        };
        self.queue_index = Some(next);
        proof {
            if self.shuffle_played@.len() == 0 {
                assert(self.spec_played() =~= Seq::<Seq<char>>::empty());
            }
            assert(self.spec_played() == played_after(before, idx as int, true));
        }
        let ghost mid = *self;
        let r = self.start_current();
        proof {
            lemma_started_frame(mid, skipped(before, idx as int, next as int), mid.spec_played(), next as int, *self);
        }
        r
    }

    /// What `prev_track` leaves and returns.
    pub open spec fn prev_track_outcome(before: App, after: App, r: Option<Effect>) -> bool {
        &&& after.wf()
        &&& skipped_back(before, after, r)
    }

    /// Goes back to the previous queue entry, wrapping to the last; in
    /// shuffle, to a drawn entry other than the playing one.
    pub fn prev_track(&mut self) -> (r: Option<Effect>)
        requires
            old(self).wf(),
        ensures
            App::prev_track_outcome(*old(self), *final(self), r),
    {
        if self.queue.len() == 0 {
            return None;
        }
        let prev = self.prev_position();
        self.queue_index = Some(prev);
        self.start_current()
    }

    /// Moves the generator as going back from the playing position does,
    /// and returns the position to go back to (see [`prev_target`]).
    fn prev_position(&mut self) -> (p: usize)
        requires
            old(self).queue@.len() > 0,
            old(self).wf(),
        ensures
            p == prev_target(*old(self)),
            p < old(self).queue@.len(),
            *final(self) == (App { rng_state: prev_rng(*old(self)), ..*old(self) }),
    {
        let len = self.queue.len();
        let idx = match self.queue_index {
            Some(i) => i,
            None => 0,
        };
        if self.shuffle && len > 1 {
            self.draw_other(idx)
        } else if idx == 0 {
            len - 1
        } else {
            idx - 1
        }
    }

    /// What `stop_playback` leaves and returns.
    pub open spec fn stop_playback_outcome(before: App, after: App, r: Effect) -> bool {
        &&& r is StopPlayer
        &&& stopped(before, after)
    }

    /// Stops playback and clears the now-playing state (track, cover,
    /// lyrics, download in flight). The queue stays, so playback can resume
    /// from any entry.
    pub fn stop_playback(&mut self) -> (r: Effect)
        ensures
            App::stop_playback_outcome(*old(self), *final(self), r),
    {
        let had_track = self.current.is_some() || self.loading_audio;
        self.current = None;
        self.loading_audio = false;
        self.lyrics = LyricsState::Pending;
        self.ui.lyrics.reset();
        if had_track {
            self.clear_artwork();
            self.status = string_from("⏹ Reprodução parada.");
        }
        Effect::StopPlayer
    }

    /// What `seek_forward` leaves and returns.
    pub open spec fn seek_forward_outcome(before: App, r: Option<Effect>) -> bool {
        &&& r == (if before.current is Some { Some(Effect::SeekBy { forward: true, secs: 5 }) } else { None })
    }

    /// Five seconds forward in the playing track.
    pub fn seek_forward(&self) -> (r: Option<Effect>)
        ensures
            App::seek_forward_outcome(*self, r),
    {
        if self.current.is_some() {
            Some(Effect::SeekBy { forward: true, secs: 5 })
        } else {
            None
        }
    }

    /// What `seek_backward` leaves and returns.
    pub open spec fn seek_backward_outcome(before: App, r: Option<Effect>) -> bool {
        &&& r == (if before.current is Some { Some(Effect::SeekBy { forward: false, secs: 5 }) } else { None })
    }

    /// Five seconds back in the playing track.
    pub fn seek_backward(&self) -> (r: Option<Effect>)
        ensures
            App::seek_backward_outcome(*self, r),
    {
        if self.current.is_some() {
            Some(Effect::SeekBy { forward: false, secs: 5 })
        } else {
            None
        }
    }

    /// Ends the queue: nothing plays and the cover goes.
    pub(crate) fn finish_queue(&mut self)
        ensures
            finished(*old(self), *final(self)),
    {
        self.current = None;
        self.clear_artwork();
        self.loading_audio = false;
        self.status = string_from("Fila concluída.");
    }

    /// Moves on when the playing track ends, following the repeat mode:
    /// the same track again, the precomputed next entry, a radio around the
    /// track when the queue is exhausted and autoplay is on, or the end.
    pub fn advance_auto(&mut self) -> (r: Option<Effect>)
        requires
            old(self).wf(),
        ensures
            final(self).wf(),
            auto_advanced(*old(self), *final(self), r),
    {
        if self.queue.len() == 0 {
            return None;
        }
        if self.repeat == RepeatMode::One {
            return self.start_current();
        }
        match self.next_index {
            Some(n) => {
                let r = self.end_or_move_on(Some(n));
                assert(ended_or_moved_on(*old(self), old(self).spec_played(), Some(n as int), *self, r));
                r
            },
            None => {
                match self.queue_index {
                    Some(idx) => self.advance_from(idx),
                    None => self.end_or_move_on(None),
                }
            },
        }
    }

    /// Chooses the entry after `idx` and plays it, or ends the queue.
    #[verifier::spinoff_prover]
    #[verifier::rlimit(40)]
    fn advance_from(&mut self, idx: usize) -> (r: Option<Effect>)
        requires
            old(self).wf(),
            old(self).queue_index == Some(idx),
        ensures
            final(self).wf(),
            ended_or_moved_on(
                App { rng_state: drawn_state(*old(self), idx as int), ..*old(self) },
                played_after(*old(self), idx as int, wraps(old(self).repeat)),
                next_of(*old(self), idx as int, wraps(old(self).repeat)),
                *final(self),
                r,
            ),
    {
            let allow_wrap = match self.repeat {
                RepeatMode::Off => false,
                _ => true,
            };
            let ghost before = *self;
            let next = self.compute_next(idx, allow_wrap);
            proof {
                if self.shuffle_played@.len() == 0 {
                    assert(self.spec_played() =~= Seq::<Seq<char>>::empty());
                }
                assert(self.spec_played() == played_after(before, idx as int, allow_wrap));
            }
            let ghost mid = *self;
            let r = self.end_or_move_on(next);
            proof {
                crate::app::queue::lemma_restart_has_next(
                    before.spec_queue_ids(), before.spec_played(), before.shuffle, before.rng_state, idx as int, allow_wrap);
                assert(next_of(before, idx as int, allow_wrap) == match next { Some(n) => Some(n as int), None => None });
                lemma_ended_frame(
                    mid,
                    App { rng_state: drawn_state(before, idx as int), ..before },
                    mid.spec_played(),
                    next_of(before, idx as int, allow_wrap),
                    *self,
                    r,
                );
            }
            r
    }

    /// Plays queue entry `next`, or, at the end of the queue, asks for a
    /// radio around the playing track when autoplay allows it, else ends.
    fn end_or_move_on(&mut self, next: Option<usize>) -> (r: Option<Effect>)
        requires
            old(self).wf(),
            next matches Some(n) ==> n < old(self).queue@.len(),
        ensures
            final(self).wf(),
            ended_or_moved_on(*old(self), old(self).spec_played(), match next { Some(n) => Some(n as int), None => None }, *final(self), r),
    {
        match next {
            Some(n) => {
                self.queue_index = Some(n);
                self.start_current()
            },
            None => {
                let seed: Option<String> = match &self.current {
                    Some(t) => if !t.video_id.as_str().is_empty() { Some(copy_string(&t.video_id)) } else { None },
                    None => None,
                };
                if self.autoplay && self.capabilities.radio {
                    match seed {
                        Some(seed) => {
                            self.status = string_from("📻 Fila concluída — carregando rádio...");
                            return Some(Effect::Radio { seed });
                        },
                        None => {},
                    }
                }
                self.finish_queue();
                Some(Effect::StopPlayer)
            },
        }
    }

    /// What `like_current` leaves and returns.
    pub open spec fn like_current_outcome(before: App, after: App, r: Option<Effect>) -> bool {
        &&& match before.current {
                    None => r is None && after == (App { status: after.status, ..before })
                        && after.status@ == "Nada tocando para curtir."@,
                    Some(t) => if !before.capabilities.likes {
                        &&& r is None
                        &&& after == (App { status: after.status, ..before })
                        &&& after.status@ == before.provider_name@ + " não suporta curtir faixas."@
                    } else if before.authentication != AuthState::Authenticated {
                        &&& r is None
                        &&& after == (App { status: after.status, ..before })
                        &&& after.status@ == "⚠ Conecte sua conta para curtir faixas."@
                    } else {
                        let like = !string_views(before.liked@).contains(t.video_id@);
                        &&& r matches Some(Effect::Rate { video_id, like: l }) && video_id@ == t.video_id@ && l == like
                        &&& after == (App { liked: after.liked, status: after.status, ..before })
                        &&& string_views(after.liked@) == (if like {
                            string_views(before.liked@).push(t.video_id@)
                        } else {
                            without_str(string_views(before.liked@), t.video_id@)
                        })
                        &&& after.status@ == (if like { "💚 Curtiu: "@ } else { "🤍 Removeu a curtida: "@ }) + t.title@
                    },
                }
    }

    /// Likes the playing track, or takes the like back when it was liked
    /// in this session, and asks the provider to record it.
    #[verifier::spinoff_prover]
    #[verifier::rlimit(30)]
    pub fn like_current(&mut self) -> (r: Option<Effect>)
        ensures
            App::like_current_outcome(*old(self), *final(self), r),
            old(self).wf() ==> final(self).wf(),
    {
        let (id, title) = match &self.current {
            Some(t) => (copy_string(&t.video_id), copy_string(&t.title)),
            None => {
                self.status = string_from("Nada tocando para curtir.");
                return None;
            },
        };
        if !self.capabilities.likes {
            let mut status = copy_string(&self.provider_name);
            push_str(&mut status, " não suporta curtir faixas.");
            self.status = status;
            return None;
        }
        if !self.is_authenticated() {
            self.status = string_from("⚠ Conecte sua conta para curtir faixas.");
            return None;
        }
        let like = self.toggle_like(&id);
        let mut status = if like { string_from("💚 Curtiu: ") } else { string_from("🤍 Removeu a curtida: ") };
        push_str(&mut status, title.as_str());
        self.status = status;
        Some(Effect::Rate { video_id: id, like })
    }

    /// Flips whether `id` is liked; returns whether it now is.
    fn toggle_like(&mut self, id: &String) -> (like: bool)
        ensures
            like == !string_views(old(self).liked@).contains(id@),
            *final(self) == (App { liked: final(self).liked, ..*old(self) }),
            string_views(final(self).liked@) == (if like {
                string_views(old(self).liked@).push(id@)
            } else {
                without_str(string_views(old(self).liked@), id@)
            }),
            distinct_strings(old(self).liked@) ==> distinct_strings(final(self).liked@),
    {
        let like = !strings_contain(&self.liked, id.as_str());
        let ghost old_liked = self.liked@;
        proof {
            lemma_distinct_views(old_liked);
            lemma_without_str_distinct(string_views(old_liked), id@);
        }
        if like {
            let mut liked = strings_without(&self.liked, id.as_str());
            proof {
                lemma_without_absent(string_views(self.liked@), id@);
            }
            let ghost before = string_views(liked@);
            liked.push(copy_string(id));
            assert(string_views(liked@) =~= before.push(id@));
            self.liked = liked;
        } else {
            let liked = strings_without(&self.liked, id.as_str());
            self.liked = liked;
        }
        proof {
            lemma_distinct_views(self.liked@);
        }
        like
    }

    /// The lyric seek at clock reading `now`: jumps playback to the start of
    /// the line in focus (undoing the timing correction) and goes back to
    /// following the song. Nothing happens without synced lyrics.
    pub fn seek_to_focused_lyric_at(&mut self, now: u128) -> (r: Option<Effect>)
        ensures
            lyric_seek(*old(self), now, *final(self), r),
    {
        let (target, text) = match &self.lyrics {
            LyricsState::Synced { lines, active } => {
                match self.ui.lyrics.focused_line_at(*active, now) {
                    Some(i) => {
                        if i < lines.len() {
                            let start: i128 = lines[i].start_ms as i128 - self.ui.lyrics.offset_ms as i128;
                            let ms: u64 = if start < 0 {
                                0
                            } else if start > u64::MAX as i128 {
                                u64::MAX
                            } else {
                                start as u64
                            };
                            (ms, copy_string(&lines[i].text))
                        } else {
                            return None;
                        }
                    },
                    None => {
                        return None;
                    },
                }
            },
            _ => {
                return None;
            },
        };
        self.ui.lyrics.follow_now();
        let mut status = string_from("↷ ");
        push_str(&mut status, text.as_str());
        self.status = status;
        Some(Effect::SeekTo { ms: target })
    }

    /// Jumps playback to the start of the lyric line in focus (see
    /// [`Self::seek_to_focused_lyric_at`]), at the clock's current reading.
    pub fn seek_to_focused_lyric(&mut self) -> (r: Option<Effect>)
        ensures
            exists|now: u128| #[trigger] lyric_seek(*old(self), now, *final(self), r),
    {
        let now = self.ui.lyrics.now_ms();
        self.seek_to_focused_lyric_at(now)
    }

    /// Nudges the lyrics timing correction and asks for the preferences to
    /// be saved. The new value is reported in seconds with two decimals
    /// (`original` at zero); a value that is not a whole number of
    /// hundredths is left for the caller to report.
    pub fn adjust_lyrics_offset(&mut self, delta_ms: i64) -> (r: Effect)
        ensures
            r is SaveConfig,
            ({
                let offset = clamp_int(old(self).ui.lyrics.offset_ms + delta_ms, -10_000, 10_000);
                &&& *final(self) == (App {
                    ui: UiState {
                        lyrics: LyricsView { offset_ms: offset as i64, ..old(self).ui.lyrics },
                        ..old(self).ui
                    },
                    status: final(self).status,
                    ..*old(self)
                })
                &&& offset == 0 ==> final(self).status@ == "Sincronia da letra: original."@
                &&& offset != 0 && offset % 10 == 0 ==> final(self).status@
                    == "Sincronia da letra: "@ + crate::app::preferences::offset_seconds(offset)
                &&& offset % 10 != 0 ==> final(self).status == old(self).status
            }),
    {
        self.ui.lyrics.adjust_offset(delta_ms);
        let offset = self.ui.lyrics.offset_ms();
        if offset == 0 {
            self.status = string_from("Sincronia da letra: original.");
        } else {
            match crate::app::preferences::offset_label(offset) {
                Some(label) => {
                    let mut text = string_from("Sincronia da letra: ");
                    push_str(&mut text, label.as_str());
                    self.status = text;
                },
                None => {},
            }
        }
        Effect::SaveConfig
    }
}

/// No two strings read the same exactly when their views hold no
/// duplicate.
proof fn lemma_distinct_views(s: Seq<String>)
    ensures
        distinct_strings(s) <==> string_views(s).no_duplicates(),
{
    let v = string_views(s);
    if distinct_strings(s) {
        assert forall|i: int, j: int| 0 <= i < v.len() && 0 <= j < v.len() && i != j implies v[i] != v[j] by {
            if i < j {
                assert(s[i]@ != s[j]@);
            } else {
                assert(s[j]@ != s[i]@);
            }
        }
    }
    if v.no_duplicates() {
        assert forall|i: int, j: int| 0 <= i < j < s.len() implies #[trigger] s[i]@ != #[trigger] s[j]@ by {
            assert(v[i] != v[j]);
        }
    }
}

/// Dropping a string keeps a list without duplicates so, and keeps only
/// strings that were there.
proof fn lemma_without_str_distinct(s: Seq<Seq<char>>, x: Seq<char>)
    ensures
        forall|y: Seq<char>| without_str(s, x).contains(y) ==> s.contains(y),
        s.no_duplicates() ==> without_str(s, x).no_duplicates(),
    decreases s.len(),
{
    if s.len() > 0 {
        let d = s.drop_last();
        lemma_without_str_distinct(d, x);
        let rest = without_str(d, x);
        assert forall|y: Seq<char>| without_str(s, x).contains(y) implies s.contains(y) by {
            let k = choose|k: int| 0 <= k < without_str(s, x).len() && without_str(s, x)[k] == y;
            if s.last() != x && k == rest.len() {
                assert(s[s.len() - 1] == y);
            } else {
                assert(rest[k] == y);
                assert(rest.contains(y));
                assert(d.contains(y));
                let m = choose|m: int| 0 <= m < d.len() && d[m] == y;
                assert(d[m] == s[m]);
            }
        }
        if s.no_duplicates() {
            assert(d.no_duplicates()) by {
                assert forall|i: int, j: int| 0 <= i < d.len() && 0 <= j < d.len() && i != j implies d[i] != d[j] by {
                    assert(s[i] == d[i] && s[j] == d[j]);
                }
            }
            if s.last() != x {
                assert(!rest.contains(s.last())) by {
                    if rest.contains(s.last()) {
                        assert(d.contains(s.last()));
                        let m = choose|m: int| 0 <= m < d.len() && d[m] == s.last();
                        assert(d[m] == s[m]);
                        assert(s[m] == s[s.len() - 1]);
                    }
                }
                let r = rest.push(s.last());
                assert forall|i: int, j: int| 0 <= i < r.len() && 0 <= j < r.len() && i != j implies r[i] != r[j] by {
                    if i < rest.len() && j < rest.len() {
                        assert(r[i] == rest[i] && r[j] == rest[j]);
                    } else if i < rest.len() {
                        assert(r[i] == rest[i]);
                        assert(rest.contains(rest[i]));
                    } else {
                        assert(r[j] == rest[j]);
                        assert(rest.contains(rest[j]));
                    }
                }
            }
        }
    }
}

/// Law: with repeat-one, the end of a track plays the same queue entry
/// again: the queue and its position stay, the same track becomes the
/// playing one, and its audio is asked for.
pub proof fn lemma_repeat_one_replays(before: App, after: App, r: Option<Effect>)
    requires
        before.wf(),
        before.repeat == RepeatMode::One,
        before.queue_index is Some,
        auto_advanced(before, after, r),
    ensures
        after.queue_index == before.queue_index,
        after.queue == before.queue,
        after.current matches Some(c) && c@ == before.queue@[before.queue_index->0 as int]@,
        r matches Some(Effect::Play { track, .. }) && track@ == before.queue@[before.queue_index->0 as int]@,
{
    reveal(started);
}

/// Nothing equal to `x` is left once `x` is dropped.
proof fn lemma_without_str_absent(s: Seq<Seq<char>>, x: Seq<char>)
    ensures
        !without_str(s, x).contains(x),
    decreases s.len(),
{
    if s.len() > 0 {
        lemma_without_str_absent(s.drop_last(), x);
        let rest = without_str(s.drop_last(), x);
        if s.last() != x {
            assert forall|k: int| 0 <= k < rest.push(s.last()).len() implies rest.push(s.last())[k] != x by {
                if k < rest.len() {
                    assert(rest.push(s.last())[k] == rest[k]);
                }
            }
        }
    }
}

/// Law: liking tells the provider what the app now shows. A like request
/// is sent for the playing track, its flag is true exactly when the track
/// was not liked before, and afterwards the track is liked exactly when the
/// flag is true. With a provider that takes likes and a session, playing a
/// track always sends one.
pub proof fn lemma_like_flag_matches(before: App, after: App, r: Option<Effect>)
    requires
        App::like_current_outcome(before, after, r),
    ensures
        r matches Some(Effect::Rate { video_id, like }) ==> {
            &&& before.current matches Some(t) && video_id@ == t.video_id@
            &&& like == !string_views(before.liked@).contains(video_id@)
            &&& like == string_views(after.liked@).contains(video_id@)
        },
        before.current is Some && before.capabilities.likes && before.authentication == AuthState::Authenticated
            ==> r matches Some(Effect::Rate { .. }),
{
    match before.current {
        Some(t) => {
            lemma_without_str_absent(string_views(before.liked@), t.video_id@);
            assert(string_views(before.liked@).push(t.video_id@).last() == t.video_id@);
        },
        None => {},
    }
}

} // verus!
