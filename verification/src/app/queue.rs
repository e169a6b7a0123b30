//! The playback queue: membership, ordering, and what plays next.
//!
//! Shuffle is a cycle, not a per-step coin flip: every track plays once
//! before any repeats (`shuffle_played`), so exhausting the cycle with
//! repeat off ends the queue instead of drawing forever.

use vstd::prelude::*;
use vstd::arithmetic::div_mod::lemma_fundamental_div_mod_converse;
use crate::app::{distinct_strings, App, Effect, MAX_DRAWS, RepeatMode, SearchHit, Section};
use crate::app::playback::{lemma_started_queue, plays, started};
use crate::app::search::SearchHitView;
use crate::home::{HomeCardPayload, PayloadView, flat_cards};
use crate::models::{TrackView, tracks_view};
use crate::models::Track;
use crate::text::{copy_string, decimal, decimal_string, push_chars, push_str, str_eq, string_from};

verus! {

/// The identifiers of the tracks of a queue, in order.
pub open spec fn track_ids(q: Seq<Track>) -> Seq<Seq<char>> {
    q.map_values(|t: Track| t.video_id@)
}

/// The identifiers recorded as played in the current shuffle cycle.
pub open spec fn played_ids(p: Seq<String>) -> Seq<Seq<char>> {
    p.map_values(|s: String| s@)
}

/// One step of the xorshift64 generator.
pub open spec fn xorshift(x: u64) -> u64 {
    let a = x ^ (x << 13u64);
    let b = a ^ (a >> 7u64);
    b ^ (b << 17u64)
}

/// The positions below `k`, other than `idx`, whose track has not played in
/// the current cycle, in increasing order.
pub open spec fn unplayed(ids: Seq<Seq<char>>, played: Seq<Seq<char>>, idx: int, k: nat) -> Seq<usize>
    decreases k,
{
    if k == 0 {
        Seq::empty()
    } else {
        let i = k - 1;
        let prev = unplayed(ids, played, idx, (k - 1) as nat);
        if i != idx && !played.contains(ids[i]) {
            prev.push(i as usize)
        } else {
            prev
        }
    }
}

/// Draws from the generator until a position other than `idx` comes up, at
/// most `budget` times: the generator state afterwards and the position, if
/// one came up.
pub open spec fn redraw(state: u64, idx: int, len: int, budget: nat) -> (u64, Option<int>)
    decreases budget,
{
    if budget == 0 {
        (state, None)
    } else {
        let s = xorshift(state);
        let n = (s as int) % len;
        if n != idx {
            (s, Some(n))
        } else {
            redraw(s, idx, len, (budget - 1) as nat)
        }
    }
}

/// What choosing the next queue entry decides.
pub struct NextStep {
    /// The next position, if the queue goes on.
    pub next: Option<int>,
    /// The generator state afterwards.
    pub rng: u64,
    /// Whether a new shuffle cycle started (the played set is emptied).
    pub restart: bool,
}

/// The next queue position after `idx`.
///
/// In order, the next position, wrapping to the first only when
/// `allow_wrap`. Shuffled, a draw among the positions not yet played in the
/// cycle; once the cycle is exhausted, either the queue ends or, when
/// `allow_wrap`, a new cycle starts with a draw of any position but `idx`
/// (after [`MAX_DRAWS`] draws that all hit `idx`, the position after it).
#[verifier::opaque]
pub open spec fn spec_next_step(
    ids: Seq<Seq<char>>,
    played: Seq<Seq<char>>,
    shuffle: bool,
    rng: u64,
    idx: int,
    allow_wrap: bool,
) -> NextStep {
    let len = ids.len() as int;
    if len == 0 {
        NextStep { next: None, rng, restart: false }
    } else if len == 1 {
        NextStep { next: if allow_wrap { Some(0) } else { None }, rng, restart: false }
    } else if shuffle {
        let u = unplayed(ids, played, idx, len as nat);
        if u.len() > 0 {
            let s = xorshift(rng);
            NextStep { next: Some(u[(s as int) % (u.len() as int)] as int), rng: s, restart: false }
        } else if !allow_wrap {
            NextStep { next: None, rng, restart: false }
        } else {
            let (s, n) = redraw(rng, idx, len, MAX_DRAWS as nat);
            NextStep {
                next: Some(match n { Some(n) => n, None => (idx + 1) % len }),
                rng: s,
                restart: true,
            }
        }
    } else if idx + 1 < len {
        NextStep { next: Some(idx + 1), rng, restart: false }
    } else if allow_wrap {
        NextStep { next: Some(0), rng, restart: false }
    } else {
        NextStep { next: None, rng, restart: false }
    }
}

proof fn lemma_unplayed_bounds(ids: Seq<Seq<char>>, played: Seq<Seq<char>>, idx: int, k: nat)
    requires
        k <= ids.len(),
        k <= usize::MAX,
    ensures
        unplayed(ids, played, idx, k).len() <= k,
        forall|j: int| 0 <= j < unplayed(ids, played, idx, k).len() ==> {
            let p = #[trigger] unplayed(ids, played, idx, k)[j] as int;
            &&& 0 <= p < k
            &&& p != idx
            &&& !played.contains(ids[p])
        },
    decreases k,
{
    if k > 0 {
        lemma_unplayed_bounds(ids, played, idx, (k - 1) as nat);
        let prev = unplayed(ids, played, idx, (k - 1) as nat);
        let u = unplayed(ids, played, idx, k);
        assert forall|j: int| 0 <= j < u.len() implies {
            let p = #[trigger] u[j] as int;
            &&& 0 <= p < k
            &&& p != idx
            &&& !played.contains(ids[p])
        } by {
            if j < prev.len() {
                assert(u[j] == prev[j]);
            }
        }
    }
}

/// A new shuffle cycle only starts when a next entry is chosen.
pub proof fn lemma_restart_has_next(
    ids: Seq<Seq<char>>,
    played: Seq<Seq<char>>,
    shuffle: bool,
    rng: u64,
    idx: int,
    allow_wrap: bool,
)
    ensures
        spec_next_step(ids, played, shuffle, rng, idx, allow_wrap).restart
            ==> spec_next_step(ids, played, shuffle, rng, idx, allow_wrap).next is Some,
{
    reveal(spec_next_step);
}

proof fn lemma_redraw_bounds(state: u64, idx: int, len: int, budget: nat)
    requires
        len > 0,
    ensures
        redraw(state, idx, len, budget).1 matches Some(n) ==> 0 <= n < len && n != idx,
    decreases budget,
{
    if budget > 0 {
        lemma_redraw_bounds(xorshift(state), idx, len, (budget - 1) as nat);
    }
}

/// Every position that choosing the next entry returns lies inside the
/// queue and, shuffled, is never the current one.
pub proof fn lemma_next_step_in_range(
    ids: Seq<Seq<char>>,
    played: Seq<Seq<char>>,
    shuffle: bool,
    rng: u64,
    idx: int,
    allow_wrap: bool,
)
    requires
        0 <= idx < ids.len(),
        ids.len() <= usize::MAX,
    ensures
        spec_next_step(ids, played, shuffle, rng, idx, allow_wrap).next matches Some(n) ==> ({
            &&& 0 <= n < ids.len()
            &&& shuffle && ids.len() > 1 ==> n != idx
        }),
{
    reveal(spec_next_step);
    let len = ids.len() as int;
    lemma_unplayed_bounds(ids, played, idx, len as nat);
    lemma_redraw_bounds(rng, idx, len, MAX_DRAWS as nat);
    let u = unplayed(ids, played, idx, len as nat);
    if len > 1 && shuffle && u.len() > 0 {
        let s = xorshift(rng);
        let j = (s as int) % (u.len() as int);
        assert(0 <= j < u.len());
        assert(u[j] < len);
    }
    if len > 1 && shuffle && u.len() == 0 && allow_wrap {
        lemma_wrap_next(idx, len);
    }
}

proof fn lemma_unplayed_complete(ids: Seq<Seq<char>>, played: Seq<Seq<char>>, idx: int, k: nat, p: int)
    requires
        k <= ids.len(),
        0 <= p < k,
        p != idx,
        !played.contains(ids[p]),
    ensures
        unplayed(ids, played, idx, k).len() > 0,
    decreases k,
{
    if p < k - 1 {
        lemma_unplayed_complete(ids, played, idx, (k - 1) as nat, p);
    }
}

/// Shuffle plays each track once per cycle: a pick inside the running cycle
/// is never a track the cycle already played, and a new cycle starts only
/// once every other entry of the queue has been played.
pub proof fn lemma_shuffle_cycle_picks_unplayed(
    ids: Seq<Seq<char>>,
    played: Seq<Seq<char>>,
    rng: u64,
    idx: int,
    allow_wrap: bool,
)
    requires
        0 <= idx < ids.len(),
        1 < ids.len() <= usize::MAX,
    ensures
        ({
            let step = spec_next_step(ids, played, true, rng, idx, allow_wrap);
            &&& !step.restart ==> (step.next matches Some(n) ==> !played.contains(ids[n]))
            &&& step.restart ==> forall|p: int| 0 <= p < ids.len() && p != idx ==> played.contains(#[trigger] ids[p])
        }),
{
    reveal(spec_next_step);
    let len = ids.len() as int;
    lemma_unplayed_bounds(ids, played, idx, len as nat);
    let u = unplayed(ids, played, idx, len as nat);
    if u.len() > 0 {
        let s = xorshift(rng);
        let j = (s as int) % (u.len() as int);
        assert(0 <= j < u.len());
        assert(!played.contains(ids[u[j] as int]));
    } else {
        assert forall|p: int| 0 <= p < ids.len() && p != idx implies played.contains(#[trigger] ids[p]) by {
            if !played.contains(ids[p]) {
                lemma_unplayed_complete(ids, played, idx, len as nat, p);
            }
        }
    }
}

/// Removing a queue entry other than the playing one leaves the queue index
/// on the same track.
pub proof fn lemma_removal_keeps_playing_track(before: App, idx: usize, after: App)
    requires
        before.wf(),
        idx < before.queue@.len(),
        before.queue_index matches Some(qi) && qi != idx,
        removed_and_recomputed(before, idx, after),
    ensures
        after.queue_index matches Some(q) && after.queue@[q as int] == before.queue@[before.queue_index->0 as int],
{
}

/// Moving an entry keeps the queue index on the playing track.
pub proof fn lemma_move_keeps_playing_track(queue: Seq<Track>, queue_index: Option<usize>, idx: usize, target: usize)
    requires
        idx < queue.len(),
        target < queue.len(),
        queue_index matches Some(qi) && qi < queue.len(),
    ensures
        ({
            let moved = queue.update(idx as int, queue[target as int]).update(target as int, queue[idx as int]);
            repointed(queue_index, idx, target) matches Some(q) && moved[q as int] == queue[queue_index->0 as int]
        }),
{
}

proof fn lemma_wrap_next(idx: int, len: int)
    requires
        0 <= idx < len,
        len > 1,
    ensures
        (idx + 1) % len == (if idx + 1 < len { idx + 1 } else { 0 }),
{
    if idx + 1 < len {
        lemma_fundamental_div_mod_converse(idx + 1, len, 0, idx + 1);
    } else {
        lemma_fundamental_div_mod_converse(idx + 1, len, 1, 0);
    }
}

/// Whether `id` is among the played identifiers.
fn played_contains(played: &Vec<String>, id: &String) -> (r: bool)
    ensures
        r == played_ids(played@).contains(id@),
{
    let mut i: usize = 0;
    while i < played.len()
        invariant
            i <= played@.len(),
            forall|j: int| 0 <= j < i ==> played@[j]@ != id@,
        decreases played@.len() - i,
    {
        if str_eq(played[i].as_str(), id.as_str()) {
            assert(played_ids(played@)[i as int] == id@);
            return true;
        }
        i = i + 1;
    }
    proof {
        if played_ids(played@).contains(id@) {
            let j = choose|j: int| 0 <= j < played_ids(played@).len() && played_ids(played@)[j] == id@;
            assert(played@[j]@ == id@);
        }
    }
    false
}

impl App {
    /// The identifiers of the queued tracks.
    pub open spec fn spec_queue_ids(&self) -> Seq<Seq<char>> {
        track_ids(self.queue@)
    }

    /// The identifiers played in the current shuffle cycle.
    pub open spec fn spec_played(&self) -> Seq<Seq<char>> {
        played_ids(self.shuffle_played@)
    }

    /// Whether the next-entry choice from `idx` with `allow_wrap` took `self`
    /// to `after`, returning `r`.
    pub open spec fn next_step_taken(&self, idx: int, allow_wrap: bool, after: App, r: Option<usize>) -> bool {
        let step = spec_next_step(self.spec_queue_ids(), self.spec_played(), self.shuffle, self.rng_state, idx, allow_wrap);
        &&& match r {
            Some(n) => step.next == Some(n as int),
            None => step.next is None,
        }
        &&& after == (App { rng_state: step.rng, shuffle_played: after.shuffle_played, ..*self })
        &&& step.restart ==> after.shuffle_played@.len() == 0
        &&& !step.restart ==> after.shuffle_played == self.shuffle_played
    }

    /// Advances the xorshift64 generator and returns its new state.
    pub(crate) fn next_rand(&mut self) -> (r: u64)
        ensures
            r == xorshift(old(self).rng_state),
            *final(self) == (App { rng_state: r, ..*old(self) }),
    {
        let mut x = self.rng_state;
        x = x ^ (x << 13u64);
        x = x ^ (x >> 7u64);
        x = x ^ (x << 17u64);
        self.rng_state = x;
        x
    }

    /// The positions other than `idx` whose track has not played in the
    /// current cycle.
    fn unplayed_positions(&self, idx: usize) -> (r: Vec<usize>)
        ensures
            r@ == unplayed(self.spec_queue_ids(), self.spec_played(), idx as int, self.queue@.len()),
    {
        let mut out: Vec<usize> = Vec::new();
        let mut i: usize = 0;
        while i < self.queue.len()
            invariant
                i <= self.queue@.len(),
                out@ == unplayed(self.spec_queue_ids(), self.spec_played(), idx as int, i as nat),
            decreases self.queue@.len() - i,
        {
            let played = played_contains(&self.shuffle_played, &self.queue[i].video_id);
            if i != idx && !played {
                out.push(i);
            }
            i = i + 1;
        }
        out
    }

    /// Draws positions until one other than `idx` comes up, at most
    /// [`MAX_DRAWS`] times; the position after `idx` if none did.
    pub(crate) fn draw_other(&mut self, idx: usize) -> (n: usize)
        requires
            idx < old(self).queue@.len(),
            old(self).queue@.len() > 1,
        ensures
            ({
                let (s, m) = redraw(old(self).rng_state, idx as int, old(self).queue@.len() as int, MAX_DRAWS as nat);
                &&& n == match m {
                    Some(m) => m,
                    None => (idx + 1) % (old(self).queue@.len() as int),
                }
                &&& *final(self) == (App { rng_state: s, ..*old(self) })
            }),
            n < old(self).queue@.len(),
            n != idx,
    {
        let len = self.queue.len();
        proof {
            lemma_redraw_bounds(self.rng_state, idx as int, len as int, MAX_DRAWS as nat);
        }
        let ghost start = self.rng_state;
        let ghost before = *self;
        let mut n = idx;
        let mut draws: u32 = 0;
        while n == idx && draws < MAX_DRAWS
            invariant
                draws <= MAX_DRAWS,
                len == before.queue@.len(),
                len > 1,
                idx < len,
                start == before.rng_state,
                *self == (App { rng_state: self.rng_state, ..before }),
                n == idx ==> redraw(start, idx as int, len as int, MAX_DRAWS as nat)
                    == redraw(self.rng_state, idx as int, len as int, (MAX_DRAWS - draws) as nat),
                n != idx ==> redraw(start, idx as int, len as int, MAX_DRAWS as nat) == (self.rng_state, Some(n as int)),
            decreases MAX_DRAWS - draws,
        {
            let s = self.next_rand();
            n = (s % (len as u64)) as usize;
            draws = draws + 1;
        }
        if n == idx {
            proof {
                lemma_wrap_next(idx as int, len as int);
            }
            n = if idx + 1 < len { idx + 1 } else { 0 };
        }
        n
    }

    /// Chooses the queue position to play after `idx` (see
    /// [`spec_next_step`]).
    #[verifier::rlimit(40)]
    pub fn compute_next(&mut self, idx: usize, allow_wrap: bool) -> (r: Option<usize>)
        requires
            idx < old(self).queue@.len(),
        ensures
            old(self).next_step_taken(idx as int, allow_wrap, *final(self), r),
            r matches Some(n) ==> n < old(self).queue@.len(),
    {
        let len = self.queue.len();
        proof {
            reveal(spec_next_step);
            assert(self.spec_queue_ids().len() == len);
            lemma_next_step_in_range(self.spec_queue_ids(), self.spec_played(), self.shuffle, self.rng_state, idx as int, allow_wrap);
        }
        if len == 1 {
            return if allow_wrap { Some(0) } else { None };
        }
        if self.shuffle {
            let candidates = self.unplayed_positions(idx);
            if candidates.len() > 0 {
                let s = self.next_rand();
                let pick = (s % (candidates.len() as u64)) as usize;
                return Some(candidates[pick]);
            }
            if !allow_wrap {
                return None;
            }
            self.shuffle_played.clear();
            Some(self.draw_other(idx))
        } else if idx + 1 < len {
            Some(idx + 1)
        } else if allow_wrap {
            Some(0)
        } else {
            None
        }
    }

    /// Recomputes the precomputed next entry from the playing position under
    /// the current shuffle and repeat modes.
    pub fn recompute_next(&mut self)
        requires
            old(self).queue_index matches Some(i) ==> i < old(self).queue@.len(),
            old(self).theme_index < old(self).theme_names@.len(),
            distinct_strings(old(self).liked@),
            distinct_strings(old(self).shuffle_played@),
        ensures
            recomputed(*old(self), *final(self)),
            final(self).wf(),
    {
        match self.queue_index {
            Some(idx) => {
                let allow_wrap = match self.repeat {
                    RepeatMode::Off => false,
                    _ => true,
                };
                let ghost before = *self;
                let n = self.compute_next(idx, allow_wrap);
                proof {
                    assert(before.next_step_taken(idx as int, allow_wrap, *self, n));
                    if self.shuffle_played@.len() == 0 {
                        assert(self.spec_played() =~= Seq::<Seq<char>>::empty());
                    }
                }
                self.next_index = n;
            },
            None => {
                self.next_index = None;
            },
        }

    }

    /// What `toggle_shuffle` leaves and returns.
    pub open spec fn toggle_shuffle_outcome(before: App, after: App) -> bool {
        &&& after.wf()
        &&& after == (App {
                    shuffle: !before.shuffle,
                    status: after.status,
                    next_index: after.next_index,
                    rng_state: after.rng_state,
                    shuffle_played: after.shuffle_played,
                    ..before
                })
        &&& after.status@ == (if !before.shuffle { "🔀 Aleatório ativado."@ } else { "➡ Aleatório desativado."@ })
        &&& next_recomputed(
                    before.spec_queue_ids(),
                    match before.current {
                        Some(t) if !before.shuffle => seq![t.video_id@],
                        _ => Seq::empty(),
                    },
                    !before.shuffle,
                    before.rng_state,
                    before.queue_index,
                    before.repeat,
                    after,
                )
    }

    /// Turns shuffle on or off. A new cycle starts either way; when shuffle
    /// turns on, the playing track counts as already played in it.
    pub fn toggle_shuffle(&mut self)
        requires
            old(self).wf(),
        ensures
            App::toggle_shuffle_outcome(*old(self), *final(self)),
    {
        let shuffle = !self.shuffle;
        let mut played: Vec<String> = Vec::new();
        if shuffle {
            match &self.current {
                Some(t) => {
                    played.push(copy_string(&t.video_id));
                },
                None => {},
            }
        }
        self.shuffle = shuffle;
        self.shuffle_played = played;
        self.status = if shuffle {
            string_from("🔀 Aleatório ativado.")
        } else {
            string_from("➡ Aleatório desativado.")
        };
        proof {
            assert(self.spec_played() =~= (match old(self).current {
                Some(t) if !old(self).shuffle => seq![t.video_id@],
                _ => Seq::<Seq<char>>::empty(),
            }));
        }
        self.recompute_next();
    }

    /// What `cycle_repeat` leaves and returns.
    pub open spec fn cycle_repeat_outcome(before: App, after: App) -> bool {
        &&& after.wf()
        &&& after == (App {
                    repeat: before.repeat.spec_next(),
                    status: after.status,
                    next_index: after.next_index,
                    rng_state: after.rng_state,
                    shuffle_played: after.shuffle_played,
                    ..before
                })
        &&& after.status@ == "🔁 Repetição: "@ + before.repeat.spec_next().spec_label() + "."@
        &&& next_recomputed(
                    before.spec_queue_ids(),
                    before.spec_played(),
                    before.shuffle,
                    before.rng_state,
                    before.queue_index,
                    before.repeat.spec_next(),
                    after,
                )
    }

    /// Cycles the repeat mode Off → All → One → Off.
    pub fn cycle_repeat(&mut self)
        requires
            old(self).wf(),
        ensures
            App::cycle_repeat_outcome(*old(self), *final(self)),
    {
        self.repeat = self.repeat.next();
        let mut status = string_from("🔁 Repetição: ");
        push_str(&mut status, self.repeat.label());
        push_str(&mut status, ".");
        self.status = status;
        self.recompute_next();
    }

    /// Removes queue entry `idx`, keeping the playing position on the same
    /// entry and the selection inside the shorter queue.
    fn remove_entry(&mut self, idx: usize) -> (removed: Track)
        requires
            idx < old(self).queue@.len(),
        ensures
            removed == old(self).queue@[idx as int],
            final(self).queue@ == old(self).queue@.remove(idx as int),
            *final(self) == (App {
                queue: final(self).queue,
                queue_index: index_after_removal(old(self).queue_index, idx),
                selected: if old(self).queue@.len() > 1 {
                    Some(if idx < old(self).queue@.len() - 1 { idx } else { (old(self).queue@.len() - 2) as usize })
                } else {
                    None
                },
                ..*old(self)
            }),
    {
        let len = self.queue.len() - 1;
        let qi = match self.queue_index {
            Some(qi) => if idx < qi {
                Some(qi - 1)
            } else if idx == qi {
                None
            } else {
                Some(qi)
            },
            None => None,
        };
        self.queue_index = qi;
        self.selected = if len > 0 {
            Some(if idx < len { idx } else { len - 1 })
        } else {
            None
        };
        self.queue.remove(idx)
    }

    /// What `queue_remove_selected` leaves and returns.
    pub open spec fn queue_remove_selected_outcome(before: App, after: App) -> bool {
        &&& after.wf()
        &&& match before.selected {
                    Some(idx) if idx < before.queue@.len() => {
                        if before.queue_index == Some(idx) && before.current is Some {
                            &&& after == (App { status: after.status, ..before })
                            &&& after.status@ == "A faixa em reprodução não sai da fila — pule com n."@
                        } else {
                            removed_and_recomputed(before, idx, after)
                        }
                    },
                    _ => after == before,
                }
    }

    /// Removes the selected queue entry. The playing track cannot be
    /// removed; the playing position follows the entries that move up.
    pub fn queue_remove_selected(&mut self)
        requires
            old(self).wf(),
        ensures
            App::queue_remove_selected_outcome(*old(self), *final(self)),
    {
        let idx = match self.selected {
            Some(i) => i,
            None => {
                return;
            },
        };
        if idx >= self.queue.len() {
            return;
        }
        if self.queue_index == Some(idx) && self.current.is_some() {
            self.status = string_from("A faixa em reprodução não sai da fila — pule com n.");
            return;
        }
        self.remove_and_recompute(idx);
    }

    /// Removes entry `idx`, reports it, and recomputes the next entry.
    fn remove_and_recompute(&mut self, idx: usize)
        requires
            old(self).wf(),
            idx < old(self).queue@.len(),
            !(old(self).queue_index == Some(idx) && old(self).current is Some),
        ensures
            final(self).wf(),
            removed_and_recomputed(*old(self), idx, *final(self)),
    {
        let removed = self.remove_entry(idx);
        let mut status = string_from("Removida da fila: ");
        push_str(&mut status, removed.title.as_str());
        self.status = status;
        self.recompute_next();
    }

    /// What `queue_move_selected` leaves and returns.
    pub open spec fn queue_move_selected_outcome(before: App, delta: isize, after: App) -> bool {
        &&& after.wf()
        &&& match before.selected {
                    Some(idx) if idx < before.queue@.len() && 0 <= idx + delta < before.queue@.len() => {
                        let t = (idx + delta) as usize;
                        let qi = repointed(before.queue_index, idx, t);
                        &&& after == (App {
                            queue: after.queue,
                            queue_index: qi,
                            selected: Some(t),
                            next_index: after.next_index,
                            rng_state: after.rng_state,
                            shuffle_played: after.shuffle_played,
                            ..before
                        })
                        &&& after.queue@ == before.queue@.update(idx as int, before.queue@[t as int]).update(t as int, before.queue@[idx as int])
                        &&& next_recomputed(
                            track_ids(after.queue@),
                            before.spec_played(),
                            before.shuffle,
                            before.rng_state,
                            qi,
                            before.repeat,
                            after,
                        )
                    },
                    _ => after == before,
                }
    }

    /// Moves the selected queue entry `delta` places, taking the selection
    /// with it and repointing the playing position when it takes part in
    /// the swap. Moves past either end are ignored.
    pub fn queue_move_selected(&mut self, delta: isize)
        requires
            old(self).wf(),
        ensures
            App::queue_move_selected_outcome(*old(self), delta, *final(self)),
    {
        let idx = match self.selected {
            Some(i) => i,
            None => {
                return;
            },
        };
        let len = self.queue.len();
        if idx >= len {
            return;
        }
        let target: i128 = idx as i128 + delta as i128;
        if target < 0 || target >= len as i128 {
            return;
        }
        let target = target as usize;
        self.swap_entries(idx, target);
        self.recompute_next();
    }

    /// Swaps queue entries `a` and `b`, selects `b`, and keeps the playing
    /// position on the entry that was playing.
    fn swap_entries(&mut self, a: usize, b: usize)
        requires
            a < old(self).queue@.len(),
            b < old(self).queue@.len(),
            old(self).wf(),
        ensures
            final(self).queue@ == old(self).queue@.update(a as int, old(self).queue@[b as int]).update(b as int, old(self).queue@[a as int]),
            *final(self) == (App {
                queue: final(self).queue,
                queue_index: repointed(old(self).queue_index, a, b),
                selected: Some(b),
                ..*old(self)
            }),
    {
        let qi = repointed_index(self.queue_index, a, b);
        self.queue_index = qi;
        self.selected = Some(b);
        swap_in(&mut self.queue, a, b);
    }

    /// What `queue_clear` leaves and returns.
    pub open spec fn queue_clear_outcome(before: App, after: App) -> bool {
        &&& after.wf()
        &&& before.queue@.len() == 0 ==> after == before
        &&& before.queue@.len() > 0 ==> ({
                    &&& after == (App {
                        queue: after.queue,
                        queue_index: if before.current is Some { Some(0usize) } else { None },
                        selected: if before.current is Some { Some(0usize) } else { None },
                        next_index: None,
                        shuffle_played: after.shuffle_played,
                        status: after.status,
                        ..before
                    })
                    &&& after.shuffle_played@.len() == 0
                    &&& after.status@ == "Fila limpa."@
                    &&& match before.current {
                        Some(t) => after.queue@.len() == 1 && after.queue@[0]@ == t@,
                        None => after.queue@.len() == 0,
                    }
                })
    }

    /// Empties the queue except for the playing track, which stays as its
    /// only entry. Nothing happens on an empty queue.
    pub fn queue_clear(&mut self)
        requires
            old(self).wf(),
        ensures
            App::queue_clear_outcome(*old(self), *final(self)),
    {
        if self.queue.len() == 0 {
            return;
        }
        let (queue, position) = match &self.current {
            Some(t) => {
                let mut q: Vec<Track> = Vec::new();
                q.push(t.duplicate());
                (q, Some(0usize))
            },
            None => (Vec::new(), None),
        };
        self.queue = queue;
        self.queue_index = position;
        self.selected = position;
        self.next_index = None;
        self.shuffle_played = Vec::new();
        self.status = string_from("Fila limpa.");
    }

    /// The track the selection would add to the queue: `None` when there is
    /// none, `Some(None)` when the selected row is not a song.
    pub open spec fn enqueue_pick(&self) -> Option<Option<TrackView>> {
        match self.selected {
            None => None,
            Some(i) => match self.section {
                Section::Buscar => if self.search_mixed {
                    match self.spec_search_hit(i as int) {
                        Some(SearchHitView::Song(j)) => Some(Some(self.songs@[j]@)),
                        Some(_) => Some(None),
                        None => None,
                    }
                } else if i < self.songs@.len() {
                    Some(Some(self.songs@[i as int]@))
                } else {
                    None
                },
                Section::Inicio => if i < self.spec_home_total() {
                    match flat_cards(self.spec_home_view())[i as int].payload {
                        PayloadView::Track(t) => Some(Some(t)),
                        PayloadView::Collection(_) => None,
                    }
                } else {
                    None
                },
                _ => None,
            },
        }
    }

    /// The track the selection would add to the queue (see
    /// [`Self::enqueue_pick`]), and whether the selected row is a song.
    fn pick_for_queue(&self) -> (r: (Option<Track>, bool))
        requires
            self.fits(),
        ensures
            match self.enqueue_pick() {
                None => r.0 is None && r.1,
                Some(None) => r.0 is None && !r.1,
                Some(Some(t)) => r.0 matches Some(x) && x@ == t && r.1,
            },
    {
        let i = match self.selected {
            Some(i) => i,
            None => {
                return (None, true);
            },
        };
        match self.section {
            Section::Buscar => {
                if self.search_mixed {
                    match self.search_hit_at(i) {
                        Some(SearchHit::Song(j)) => (Some(self.songs[j].duplicate()), true),
                        Some(_) => (None, false),
                        None => (None, true),
                    }
                } else if i < self.songs.len() {
                    (Some(self.songs[i].duplicate()), true)
                } else {
                    (None, true)
                }
            },
            Section::Inicio => {
                let view = self.home_view();
                match view.flat_card(i) {
                    Some(card) => match &card.payload {
                        HomeCardPayload::Track(t) => (Some(t.duplicate()), true),
                        HomeCardPayload::Collection(_) => (None, true),
                    },
                    None => (None, true),
                }
            },
            _ => (None, true),
        }
    }

    /// What `enqueue_selected` leaves and returns.
    pub open spec fn enqueue_selected_outcome(before: App, after: App, r: Option<Effect>) -> bool {
        &&& after.wf()
        &&& match before.enqueue_pick() {
                    None => r is None && after == before,
                    Some(None) => r is None && after == (App { status: after.status, ..before })
                        && after.status@ == "Somente músicas podem ser adicionadas à fila."@,
                    Some(Some(t)) => enqueued(before, t, after, r),
                }
    }

    /// Adds the selected song to the end of the queue without interrupting
    /// playback; when nothing plays, it starts. Only songs can be queued.
    pub fn enqueue_selected(&mut self) -> (r: Option<Effect>)
        requires
            old(self).wf(),
            old(self).fits(),
            old(self).queue@.len() < usize::MAX,
        ensures
            App::enqueue_selected_outcome(*old(self), *final(self), r),
    {
        let (picked, is_song) = self.pick_for_queue();
        if !is_song {
            self.status = string_from("Somente músicas podem ser adicionadas à fila.");
            return None;
        }
        match picked {
            Some(t) => self.enqueue_track(t),
            None => None,
        }
    }

    /// Appends `track` to the queue (see [`enqueued`]).
    #[verifier::spinoff_prover]
    #[verifier::rlimit(40)]
    fn enqueue_track(&mut self, track: Track) -> (r: Option<Effect>)
        requires
            old(self).wf(),
            old(self).queue@.len() < usize::MAX,
        ensures
            final(self).wf(),
            enqueued(*old(self), track@, *final(self), r),
    {
        let title = copy_string(&track.title);
        let ghost t = track@;
        self.push_entry(track);
        if self.current.is_none() {
            let last = self.queue.len() - 1;
            self.queue_index = Some(last);
            let ghost mid = *self;
            let r = self.start_current();
            proof {
                lemma_started_queue(mid, mid.spec_played(), last as int, *self);
            }
            r
        } else {
            self.report_entry(&title);
            None
        }
    }

    /// Pushes `track` at the end of the queue.
    fn push_entry(&mut self, track: Track)
        requires
            old(self).wf(),
            old(self).queue@.len() < usize::MAX,
        ensures
            final(self).wf(),
            final(self).queue@ == old(self).queue@.push(track),
            tracks_view(final(self).queue@) == tracks_view(old(self).queue@).push(track@),
            final(self).queue@.subrange(0, old(self).queue@.len() as int) == old(self).queue@,
            *final(self) == (App { queue: final(self).queue, ..*old(self) }),
    {
        let ghost before = self.queue@;
        let ghost t = track@;
        self.queue.push(track);
        proof {
            assert(self.queue@.subrange(0, before.len() as int) =~= before);
            assert(tracks_view(self.queue@) =~= tracks_view(before).push(t));
        }
    }

    /// Recomputes the next entry after the queue grew and reports the
    /// addition of `title`.
    #[verifier::spinoff_prover]
    fn report_entry(&mut self, title: &String)
        requires
            old(self).wf(),
        ensures
            final(self).wf(),
            *final(self) == (App {
                status: final(self).status,
                next_index: final(self).next_index,
                rng_state: final(self).rng_state,
                shuffle_played: final(self).shuffle_played,
                ..*old(self)
            }),
            next_recomputed(
                track_ids(old(self).queue@),
                old(self).spec_played(),
                old(self).shuffle,
                old(self).rng_state,
                old(self).queue_index,
                old(self).repeat,
                *final(self),
            ),
            final(self).status@ == "➕ \""@ + title@ + "\" adicionada à fila ("@
                + decimal(old(self).queue@.len() as nat) + " na fila)."@,
    {
        self.recompute_next();
        let n = decimal_string(self.queue.len() as u64);
        let mut status = string_from("➕ \"");
        push_str(&mut status, title.as_str());
        push_str(&mut status, "\" adicionada à fila (");
        push_chars(&mut status, &n);
        push_str(&mut status, " na fila).");
        self.status = status;
    }
}

/// Whether `after` holds the next entry, generator state and played set
/// that recomputing the next entry from `queue_index` gives, on a queue with
/// identifiers `ids`, played set `played`, shuffle flag `shuffle`,
/// generator state `rng` and repeat mode `repeat` (see [`spec_next_step`]).
pub open spec fn next_recomputed(
    ids: Seq<Seq<char>>,
    played: Seq<Seq<char>>,
    shuffle: bool,
    rng: u64,
    queue_index: Option<usize>,
    repeat: RepeatMode,
    after: App,
) -> bool {
    match queue_index {
        None => after.next_index is None && after.rng_state == rng && after.spec_played() == played,
        Some(i) => {
            let step = spec_next_step(ids, played, shuffle, rng, i as int, repeat != RepeatMode::Off);
            &&& match after.next_index {
                Some(n) => step.next == Some(n as int),
                None => step.next is None,
            }
            &&& after.rng_state == step.rng
            &&& after.spec_played() == (if step.restart { Seq::empty() } else { played })
        },
    }
}

/// Whether `after` is `before` with the next entry recomputed.
pub open spec fn recomputed(before: App, after: App) -> bool {
    &&& after == (App {
        next_index: after.next_index,
        rng_state: after.rng_state,
        shuffle_played: after.shuffle_played,
        ..before
    })
    &&& next_recomputed(
        before.spec_queue_ids(),
        before.spec_played(),
        before.shuffle,
        before.rng_state,
        before.queue_index,
        before.repeat,
        after,
    )
}

/// Whether `after` is `before` once entry `idx` left the queue, the
/// selection stayed inside it, the removal was reported and the next entry
/// was recomputed.
pub open spec fn removed_and_recomputed(before: App, idx: usize, after: App) -> bool {
    let len = before.queue@.len();
    &&& after == (App {
        queue: after.queue,
        queue_index: index_after_removal(before.queue_index, idx),
        selected: if len > 1 {
            Some(if idx < len - 1 { idx } else { (len - 2) as usize })
        } else {
            None
        },
        status: after.status,
        next_index: after.next_index,
        rng_state: after.rng_state,
        shuffle_played: after.shuffle_played,
        ..before
    })
    &&& after.queue@ == before.queue@.remove(idx as int)
    &&& after.status@ == "Removida da fila: "@ + before.queue@[idx as int].title@
    &&& next_recomputed(
        track_ids(before.queue@.remove(idx as int)),
        before.spec_played(),
        before.shuffle,
        before.rng_state,
        index_after_removal(before.queue_index, idx),
        before.repeat,
        after,
    )
}

/// The next position chosen after `idx` on `before` (see
/// [`spec_next_step`]).
pub open spec fn next_of(before: App, idx: int, allow_wrap: bool) -> Option<int> {
    spec_next_step(before.spec_queue_ids(), before.spec_played(), before.shuffle, before.rng_state, idx, allow_wrap).next
}

/// Whether the queue wraps around at its end under `repeat`.
pub open spec fn wraps(repeat: RepeatMode) -> bool {
    repeat != RepeatMode::Off
}

/// Whether `after` and `r` are what appending track `t` to the queue of
/// `before` gives: when nothing plays, the new entry starts; otherwise the
/// next entry is recomputed and the addition reported.
pub open spec fn enqueued(before: App, t: TrackView, after: App, r: Option<Effect>) -> bool {
    let len = before.queue@.len();
    &&& tracks_view(after.queue@) == tracks_view(before.queue@).push(t)
    &&& after.queue@.subrange(0, len as int) == before.queue@
    &&& before.current is None ==> {
        &&& started(
            App { queue: after.queue, queue_index: Some(len as usize), ..before },
            before.spec_played(),
            len as int,
            after,
        )
        &&& plays(App { queue: after.queue, ..before }, len as int, after, r)
    }
    &&& before.current is Some ==> {
        &&& r is None
        &&& after == (App {
            queue: after.queue,
            status: after.status,
            next_index: after.next_index,
            rng_state: after.rng_state,
            shuffle_played: after.shuffle_played,
            ..before
        })
        &&& next_recomputed(
            track_ids(after.queue@),
            before.spec_played(),
            before.shuffle,
            before.rng_state,
            before.queue_index,
            before.repeat,
            after,
        )
        &&& after.status@ == "➕ \""@ + t.title + "\" adicionada à fila ("@
            + decimal((len + 1) as nat) + " na fila)."@
    }
}

/// The playing position after entries `a` and `b` swapped places.
pub open spec fn repointed(queue_index: Option<usize>, a: usize, b: usize) -> Option<usize> {
    match queue_index {
        Some(qi) => if qi == a {
            Some(b)
        } else if qi == b {
            Some(a)
        } else {
            Some(qi)
        },
        None => None,
    }
}

fn repointed_index(queue_index: Option<usize>, a: usize, b: usize) -> (r: Option<usize>)
    ensures
        r == repointed(queue_index, a, b),
{
    match queue_index {
        Some(qi) => if qi == a {
            Some(b)
        } else if qi == b {
            Some(a)
        } else {
            Some(qi)
        },
        None => None,
    }
}

/// Swaps entries `a` and `b` of `v`.
fn swap_in(v: &mut Vec<Track>, a: usize, b: usize)
    requires
        a < old(v)@.len(),
        b < old(v)@.len(),
    ensures
        final(v)@ == old(v)@.update(a as int, old(v)@[b as int]).update(b as int, old(v)@[a as int]),
{
    if a == b {
        return;
    }
    let (lo, hi) = if a < b { (a, b) } else { (b, a) };
    let ghost s = v@;
    let x_hi = v.remove(hi);
    let x_lo = v.remove(lo);
    v.insert(lo, x_hi);
    v.insert(hi, x_lo);
    assert(v@ =~= s.update(a as int, s[b as int]).update(b as int, s[a as int]));
}

/// The playing position after the entry at `removed` left the queue.
pub open spec fn index_after_removal(queue_index: Option<usize>, removed: usize) -> Option<usize> {
    match queue_index {
        Some(qi) => if removed < qi {
            Some((qi - 1) as usize)
        } else if removed == qi {
            None
        } else {
            Some(qi)
        },
        None => None,
    }
}

/// Law: in the search results (the plain list), enqueueing the selected
/// row appends exactly that song to the end of the queue and keeps every
/// entry already there in place.
pub proof fn lemma_enqueue_appends_selected_song(before: App, after: App, r: Option<Effect>, i: usize)
    requires
        App::enqueue_selected_outcome(before, after, r),
        before.section == Section::Buscar,
        !before.search_mixed,
        before.selected == Some(i),
        i < before.songs@.len(),
    ensures
        after.queue@.len() == before.queue@.len() + 1,
        after.queue@[before.queue@.len() as int]@ == before.songs@[i as int]@,
        forall|k: int| 0 <= k < before.queue@.len() ==> #[trigger] after.queue@[k] == before.queue@[k],
{
    let len = before.queue@.len();
    let t = before.songs@[i as int]@;
    assert(tracks_view(after.queue@) == tracks_view(before.queue@).push(t));
    assert(tracks_view(after.queue@).len() == after.queue@.len());
    assert(tracks_view(after.queue@)[len as int] == after.queue@[len as int]@);
    assert forall|k: int| 0 <= k < len implies #[trigger] after.queue@[k] == before.queue@[k] by {
        assert(after.queue@.subrange(0, len as int)[k] == after.queue@[k]);
    }
}

} // verus!
