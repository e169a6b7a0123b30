//! The Home screen's commands: loading recommendations and the library,
//! moving through the cards, and opening one.
//!
//! `crate::home` is the provider-neutral projection that the interface
//! navigates; this module holds the application commands around it.

use vstd::prelude::*;
use crate::app::{App, Effect, Section};
use crate::app::navigation::selected_or_first;
use crate::app::playback::{lemma_started_frame, lemma_started_queue, plays, started};
use crate::app::search::browse_loaded;
use crate::home::{HomeCardPayload, HomeDirection, PayloadView, flat_cards, spec_move_index};
use crate::models::{HomeSectionView, Playlist, PlaylistView, Track, TrackView, copy_tracks, sections_view, tracks_view};
use crate::provider::AuthState;
use crate::text::{copy_string, str_eq};
use crate::ui::state::{UiState, selection_marked};

verus! {

/// Every recommendation of every section, in reading order.
pub open spec fn section_items(sections: Seq<HomeSectionView>) -> Seq<PlaylistView>
    decreases sections.len(),
{
    if sections.len() == 0 {
        Seq::empty()
    } else {
        section_items(sections.drop_last()) + sections.last().items
    }
}

proof fn lemma_section_items_take(sections: Seq<HomeSectionView>, i: int)
    requires
        0 <= i < sections.len(),
    ensures
        section_items(sections.take(i + 1)) == section_items(sections.take(i)) + sections[i].items,
{
    assert(sections.take(i + 1).drop_last() =~= sections.take(i));
}

/// Whether `after` and `r` are what the background refresh of Home and the
/// library gives on `before`: the same loads as on demand.
pub open spec fn synced(before: App, after: App, r: Seq<Effect>) -> bool {
    let home = before.capabilities.home;
    let library = before.capabilities.library && before.authentication == AuthState::Authenticated;
    let n = (if home { 1int } else { 0 }) + (if library { 1int } else { 0 });
    &&& r.len() == n
    &&& home ==> r[0] == Effect::LoadHome { session_generation: before.session_generation }
    &&& library ==> r[n - 1] == Effect::LoadLibrary { session_generation: before.session_generation }
    &&& after == (App {
        home_error: if home { None } else { before.home_error },
        busy_tasks: if library {
            crate::app::tasks::sat_inc(if home { crate::app::tasks::sat_inc(before.busy_tasks) } else { before.busy_tasks })
        } else if home {
            crate::app::tasks::sat_inc(before.busy_tasks)
        } else {
            before.busy_tasks
        },
        ..before
    })
}

impl App {
    /// The recommendations of the Home sections, flattened.
    pub open spec fn spec_home_items(&self) -> Seq<PlaylistView> {
        section_items(sections_view(self.home@))
    }

    /// Asks for the Home recommendations, when the provider offers them.
    /// A new attempt clears the error the last one left.
    pub fn load_home(&mut self) -> (r: Option<Effect>)
        ensures
            !old(self).capabilities.home ==> r is None && *final(self) == *old(self),
            old(self).capabilities.home ==> r == Some(Effect::LoadHome { session_generation: old(self).session_generation })
                && *final(self) == (App {
                    home_error: None,
                    busy_tasks: crate::app::tasks::sat_inc(old(self).busy_tasks),
                    ..*old(self)
                }),
    {
        if !self.capabilities.home {
            return None;
        }
        self.home_error = None;
        self.begin_task();
        Some(Effect::LoadHome { session_generation: self.session_generation })
    }

    /// Asks for the playlists of the library, when signed in and the
    /// provider offers them.
    pub fn load_library(&mut self) -> (r: Option<Effect>)
        ensures
            !(old(self).capabilities.library && old(self).authentication == AuthState::Authenticated)
                ==> r is None && *final(self) == *old(self),
            old(self).capabilities.library && old(self).authentication == AuthState::Authenticated
                ==> r == Some(Effect::LoadLibrary { session_generation: old(self).session_generation })
                && *final(self) == (App { busy_tasks: crate::app::tasks::sat_inc(old(self).busy_tasks), ..*old(self) }),
    {
        if !self.capabilities.library || !self.is_authenticated() {
            return None;
        }
        self.begin_task();
        Some(Effect::LoadLibrary { session_generation: self.session_generation })
    }

    /// What `sync_home_and_library` leaves and returns.
    pub open spec fn sync_home_and_library_outcome(before: App, after: App, r: Vec<Effect>) -> bool {
        &&& synced(before, after, r@)
    }

    /// The periodic background refresh of Home and the library: the same
    /// loads as on demand.
    pub fn sync_home_and_library(&mut self) -> (r: Vec<Effect>)
        ensures
            App::sync_home_and_library_outcome(*old(self), *final(self), r),
    {
        let mut effects: Vec<Effect> = Vec::new();
        match self.load_home() {
            Some(e) => effects.push(e),
            None => {},
        }
        match self.load_library() {
            Some(e) => effects.push(e),
            None => {},
        }
        effects
    }

    /// Number of recommendations across the Home sections (section
    /// headers are not selectable, so they are not counted).
    pub fn home_item_count(&self) -> (r: usize)
        requires
            self.spec_home_items().len() <= usize::MAX,
        ensures
            r == self.spec_home_items().len(),
    {
        let mut total: usize = 0;
        let mut i: usize = 0;
        while i < self.home.len()
            invariant
                i <= self.home@.len(),
                self.spec_home_items().len() <= usize::MAX,
                total == section_items(sections_view(self.home@).take(i as int)).len(),
            decreases self.home@.len() - i,
        {
            proof {
                lemma_section_items_take(sections_view(self.home@), i as int);
                lemma_section_items_prefix(sections_view(self.home@), i + 1);
            }
            total = total + self.home[i].items.len();
            i = i + 1;
        }
        assert(sections_view(self.home@).take(self.home@.len() as int) =~= sections_view(self.home@));
        total
    }

    /// The recommendation at flat index `index` across the sections.
    pub fn home_item_at(&self, index: usize) -> (r: Option<&Playlist>)
        ensures
            match r {
                Some(p) => index < self.spec_home_items().len() && p@ == self.spec_home_items()[index as int],
                None => index >= self.spec_home_items().len(),
            },
    {
        let mut remaining: usize = index;
        let mut i: usize = 0;
        while i < self.home.len()
            invariant
                i <= self.home@.len(),
                section_items(sections_view(self.home@).take(i as int)).len() <= index,
                remaining == index - section_items(sections_view(self.home@).take(i as int)).len(),
            decreases self.home@.len() - i,
        {
            proof {
                lemma_section_items_take(sections_view(self.home@), i as int);
                lemma_section_items_prefix(sections_view(self.home@), i + 1);
            }
            let n = self.home[i].items.len();
            if remaining < n {
                proof {
                    lemma_section_items_prefix(sections_view(self.home@), self.home@.len() as int);
                    assert(sections_view(self.home@).take(self.home@.len() as int) =~= sections_view(self.home@));
                    lemma_section_items_index(sections_view(self.home@), i as int, remaining as int);
                }
                return Some(&self.home[i].items[remaining]);
            }
            remaining = remaining - n;
            i = i + 1;
        }
        assert(sections_view(self.home@).take(self.home@.len() as int) =~= sections_view(self.home@));
        None
    }

    /// The flat index of the first recommendation with `browse_id`, used to
    /// keep the selection on the same card across a refresh.
    pub fn home_flat_index_of(&self, browse_id: &str) -> (r: Option<usize>)
        requires
            self.spec_home_items().len() <= usize::MAX,
        ensures
            match r {
                Some(i) => i < self.spec_home_items().len() && self.spec_home_items()[i as int].browse_id == browse_id@
                    && forall|j: int| 0 <= j < i ==> self.spec_home_items()[j].browse_id != browse_id@,
                None => forall|j: int| 0 <= j < self.spec_home_items().len() ==> self.spec_home_items()[j].browse_id != browse_id@,
            },
    {
        let ghost items = self.spec_home_items();
        let mut flat: usize = 0;
        let mut i: usize = 0;
        while i < self.home.len()
            invariant
                i <= self.home@.len(),
                items == self.spec_home_items(),
                items.len() <= usize::MAX,
                flat == section_items(sections_view(self.home@).take(i as int)).len(),
                forall|j: int| 0 <= j < flat ==> items[j].browse_id != browse_id@,
            decreases self.home@.len() - i,
        {
            proof {
                lemma_section_items_take(sections_view(self.home@), i as int);
                lemma_section_items_prefix(sections_view(self.home@), i + 1);
                lemma_section_items_prefix(sections_view(self.home@), self.home@.len() as int);
                assert(sections_view(self.home@).take(self.home@.len() as int) =~= sections_view(self.home@));
            }
            let section = &self.home[i];
            let mut j: usize = 0;
            while j < section.items.len()
                invariant
                    j <= section.items@.len(),
                    i < self.home@.len(),
                    section == self.home@[i as int],
                    items == self.spec_home_items(),
                    items.len() <= usize::MAX,
                    flat == section_items(sections_view(self.home@).take(i as int)).len(),
                    flat + section.items@.len() <= items.len(),
                    forall|q: int| 0 <= q < flat + j ==> items[q].browse_id != browse_id@,
                decreases section.items@.len() - j,
            {
                proof {
                    lemma_section_items_index(sections_view(self.home@), i as int, j as int);
                }
                if str_eq(section.items[j].browse_id.as_str(), browse_id) {
                    return Some(flat + j);
                }
                j = j + 1;
            }
            flat = flat + section.items.len();
            i = i + 1;
        }
        assert(sections_view(self.home@).take(self.home@.len() as int) =~= sections_view(self.home@));
        None
    }

    /// What `move_home` leaves and returns.
    pub open spec fn move_home_outcome(before: App, direction: HomeDirection, after: App) -> bool {
        &&& ({
                    let next = spec_move_index(
                        before.spec_home_view(),
                        selected_or_first(before.selected),
                        direction,
                        before.ui.home_columns as int,
                    );
                    &&& after == (App {
                        selected: if before.spec_home_total() > 0 { Some(next as usize) } else { None },
                        ui: UiState { anim: after.ui.anim, ..before.ui },
                        ..before
                    })
                    &&& selection_marked(before.ui.anim, after.ui.anim)
                })
    }

    /// Moves the Home selection in `direction` across the shelves (see
    /// [`spec_move_index`]) and records the move for the card's reveal.
    pub fn move_home(&mut self, direction: HomeDirection)
        requires
            old(self).fits(),
        ensures
            App::move_home_outcome(*old(self), direction, *final(self)),
    {
        let current = match self.selected {
            Some(i) => i,
            None => 0,
        };
        let view = self.home_view();
        let next = view.move_index(current, direction, self.ui.home_columns);
        let total = view.len();
        self.selected = if total > 0 { Some(next) } else { None };
        self.ui.anim.mark_selection_changed();
    }

    /// What `open_selected_home` leaves and returns.
    pub open spec fn open_selected_home_outcome(before: App, after: App, r: Option<Effect>) -> bool {
        &&& after.wf()
        &&& match before.selected {
                    Some(i) if i < before.spec_home_total() => match flat_cards(before.spec_home_view())[i as int].payload {
                        PayloadView::Track(t) => if before.recent@.len() == 0 {
                            r is None && after == before
                        } else {
                            let k = match position_of(tracks_view(before.recent@), t.video_id) { Some(k) => k, None => 0 };
                            &&& tracks_view(after.queue@) == tracks_view(before.recent@)
                            &&& started(
                                App { queue: after.queue, queue_index: Some(k as usize), next_index: None, ..before },
                                Seq::empty(),
                                k,
                                after,
                            )
                            &&& plays(App { queue: after.queue, ..before }, k, after, r)
                        },
                        PayloadView::Collection(p) => r matches Some(x)
                            && browse_loaded(before, p.browse_id, p.title, "Playlist"@, after, x),
                    },
                    _ => r is None && after == before,
                }
    }

    /// Opens the selected Home card: a recent track plays at once, with the
    /// history as the queue; a recommendation opens as a playlist.
    #[verifier::spinoff_prover]
    pub fn open_selected_home(&mut self) -> (r: Option<Effect>)
        requires
            old(self).wf(),
            old(self).fits(),
        ensures
            App::open_selected_home_outcome(*old(self), *final(self), r),
    {
        let i = match self.selected {
            Some(i) => i,
            None => {
                return None;
            },
        };
        let view = self.home_view();
        let card = match view.flat_card(i) {
            Some(c) => c,
            None => {
                return None;
            },
        };
        match &card.payload {
            HomeCardPayload::Track(t) => {
                if self.recent.len() == 0 {
                    return None;
                }
                let k = match recent_position(&self.recent, &t.video_id) {
                    Some(k) => k,
                    None => 0,
                };
                proof {
                    lemma_position_of(tracks_view(self.recent@), t.video_id@);
                }
                self.play_history_from(k)
            },
            HomeCardPayload::Collection(p) => {
                let browse_id = copy_string(&p.browse_id);
                let title = copy_string(&p.title);
                Some(self.load_browse(&browse_id, &title, "Playlist"))
            },
        }
    }

    /// Makes the history the queue and plays its entry `k`.
    fn play_history_from(&mut self, k: usize) -> (r: Option<Effect>)
        requires
            old(self).wf(),
            k < old(self).recent@.len(),
        ensures
            final(self).wf(),
            tracks_view(final(self).queue@) == tracks_view(old(self).recent@),
            started(
                App { queue: final(self).queue, queue_index: Some(k), next_index: None, ..*old(self) },
                Seq::empty(),
                k as int,
                *final(self),
            ),
            plays(App { queue: final(self).queue, ..*old(self) }, k as int, *final(self), r),
    {
        let q = copy_tracks(&self.recent);
        proof {
            assert(q@.len() == tracks_view(q@).len());
            assert(self.recent@.len() == tracks_view(self.recent@).len());
        }
        self.queue = q;
        self.queue_index = Some(k);
        self.next_index = None;
        self.shuffle_played = Vec::new();
        let ghost mid = *self;
        proof {
            assert(mid.spec_played() =~= Seq::<Seq<char>>::empty());
        }
        let r = self.start_current();
        proof {
            lemma_started_queue(mid, mid.spec_played(), k as int, *self);
            lemma_started_frame(
                mid,
                App { queue: self.queue, queue_index: Some(k), next_index: None, ..*old(self) },
                Seq::empty(),
                k as int,
                *self,
            );
        }
        r
    }
}

/// The first position of a track with identifier `id`, if any.
pub open spec fn position_of(s: Seq<TrackView>, id: Seq<char>) -> Option<int>
    decreases s.len(),
{
    if s.len() == 0 {
        None
    } else {
        match position_of(s.drop_last(), id) {
            Some(j) => Some(j),
            None => if s.last().video_id == id { Some(s.len() - 1) } else { None },
        }
    }
}

proof fn lemma_position_of(s: Seq<TrackView>, id: Seq<char>)
    ensures
        position_of(s, id) matches Some(j) ==> 0 <= j < s.len() && s[j].video_id == id,
        position_of(s, id) is None ==> forall|j: int| 0 <= j < s.len() ==> s[j].video_id != id,
    decreases s.len(),
{
    if s.len() > 0 {
        lemma_position_of(s.drop_last(), id);
        assert forall|j: int| 0 <= j < s.len() - 1 implies s.drop_last()[j] == s[j] by {}
    }
}

/// The first position in `recent` of a track with identifier `id`.
fn recent_position(recent: &Vec<Track>, id: &String) -> (r: Option<usize>)
    ensures
        match r {
            Some(k) => position_of(tracks_view(recent@), id@) == Some(k as int),
            None => position_of(tracks_view(recent@), id@) is None,
        },
{
    let ghost s = tracks_view(recent@);
    let mut i: usize = 0;
    while i < recent.len()
        invariant
            i <= recent@.len(),
            s == tracks_view(recent@),
            position_of(s.take(i as int), id@) is None,
        decreases recent@.len() - i,
    {
        proof {
            assert(s.take(i + 1).drop_last() =~= s.take(i as int));
        }
        if str_eq(recent[i].video_id.as_str(), id.as_str()) {
            proof {
                lemma_position_prefix(s, id@, i + 1);
            }
            return Some(i);
        }
        i = i + 1;
    }
    assert(s.take(recent@.len() as int) =~= s);
    None
}

/// Once the first match lies inside a prefix, the whole list finds it too.
proof fn lemma_position_prefix(s: Seq<TrackView>, id: Seq<char>, k: int)
    requires
        0 <= k <= s.len(),
        position_of(s.take(k), id) is Some,
    ensures
        position_of(s, id) == position_of(s.take(k), id),
    decreases s.len() - k,
{
    if k < s.len() {
        assert(s.take(k + 1).drop_last() =~= s.take(k));
        lemma_position_prefix(s, id, k + 1);
    } else {
        assert(s.take(k) =~= s);
    }
}

/// `section_items` of a prefix is no longer than of the whole.
proof fn lemma_section_items_prefix(sections: Seq<HomeSectionView>, k: int)
    requires
        0 <= k <= sections.len(),
    ensures
        forall|j: int| 0 <= j <= k ==> section_items(sections.take(j)).len() <= section_items(sections.take(k)).len(),
        section_items(sections.take(k)).len() <= section_items(sections).len(),
    decreases sections.len() - k,
{
    if k < sections.len() {
        lemma_section_items_take(sections, k);
        lemma_section_items_prefix(sections, k + 1);
    } else {
        assert(sections.take(k) =~= sections);
    }
    assert forall|j: int| 0 <= j <= k implies section_items(sections.take(j)).len() <= section_items(sections.take(k)).len() by {
        lemma_section_items_mono(sections, j, k);
    }
}

proof fn lemma_section_items_mono(sections: Seq<HomeSectionView>, j: int, k: int)
    requires
        0 <= j <= k <= sections.len(),
    ensures
        section_items(sections.take(j)).len() <= section_items(sections.take(k)).len(),
    decreases k - j,
{
    if j < k {
        lemma_section_items_take(sections, k - 1);
        lemma_section_items_mono(sections, j, k - 1);
    }
}

/// Item `r` of section `i` sits at its section's offset plus `r`.
proof fn lemma_section_items_index(sections: Seq<HomeSectionView>, i: int, r: int)
    requires
        0 <= i < sections.len(),
        0 <= r < sections[i].items.len(),
    ensures
        section_items(sections.take(i)).len() + r < section_items(sections).len(),
        section_items(sections)[section_items(sections.take(i)).len() + r] == sections[i].items[r],
    decreases sections.len() - i,
{
    lemma_section_items_take(sections, i);
    let off = section_items(sections.take(i)).len() as int;
    assert(section_items(sections.take(i + 1))[off + r] == sections[i].items[r]);
    if i + 1 == sections.len() {
        assert(sections.take(i + 1) =~= sections);
    } else {
        lemma_section_items_extend(sections, i + 1);
        assert(section_items(sections)[off + r] == section_items(sections.take(i + 1))[off + r]);
    }
}

/// `section_items` of a prefix is a prefix of `section_items`.
proof fn lemma_section_items_extend(sections: Seq<HomeSectionView>, k: int)
    requires
        0 <= k <= sections.len(),
    ensures
        section_items(sections.take(k)).len() <= section_items(sections).len(),
        forall|q: int| 0 <= q < section_items(sections.take(k)).len() ==>
            section_items(sections)[q] == #[trigger] section_items(sections.take(k))[q],
    decreases sections.len() - k,
{
    if k == sections.len() {
        assert(sections.take(k) =~= sections);
    } else {
        lemma_section_items_take(sections, k);
        lemma_section_items_extend(sections, k + 1);
        assert forall|q: int| 0 <= q < section_items(sections.take(k)).len() implies
            section_items(sections)[q] == #[trigger] section_items(sections.take(k))[q] by {
            assert(section_items(sections.take(k + 1))[q] == section_items(sections.take(k))[q]);
        }
    }
}

} // verus!
