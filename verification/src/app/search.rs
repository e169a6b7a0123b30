//! Search, and resolving a row of the mixed results.
//!
//! Mixed results share one flat selectable list, in display order: songs,
//! artists, albums, playlists. Group headers are never counted.

use vstd::prelude::*;
use crate::app::{distinct_strings, App, Effect, SearchHit, Section};
use crate::app::playback::{lemma_started_queue, plays, started};
use crate::models::{Track, TrackView, copy_tracks, tracks_view};
use crate::app::queue::{next_recomputed, track_ids};
use crate::models::{ArtistView, PlaylistView};
use crate::text::{chars_of, copy_string, push_chars, push_str, str_eq, string_from, string_from_chars};

verus! {

/// What a flat index of the mixed results refers to.
pub enum SearchHitView {
    Song(int),
    Artist(ArtistView),
    Album(PlaylistView),
    Playlist(PlaylistView),
}

impl App {
    /// The row at flat index `index` of the mixed results.
    pub open spec fn spec_search_hit(&self, index: int) -> Option<SearchHitView> {
        let s = self.songs@.len() as int;
        let a = self.artists@.len() as int;
        let al = self.albums@.len() as int;
        let p = self.playlists@.len() as int;
        if index < 0 {
            None
        } else if index < s {
            Some(SearchHitView::Song(index))
        } else if index < s + a {
            Some(SearchHitView::Artist(self.artists@[index - s]@))
        } else if index < s + a + al {
            Some(SearchHitView::Album(self.albums@[index - s - a]@))
        } else if index < s + a + al + p {
            Some(SearchHitView::Playlist(self.playlists@[index - s - a - al]@))
        } else {
            None
        }
    }

    /// Number of selectable rows in the mixed results.
    pub fn search_item_count(&self) -> (r: usize)
        requires
            self.spec_search_count() <= usize::MAX,
        ensures
            r == self.spec_search_count(),
    {
        self.songs.len() + self.artists.len() + self.albums.len() + self.playlists.len()
    }

    /// Resolves a flat index of the mixed results.
    pub fn search_hit_at(&self, index: usize) -> (r: Option<SearchHit>)
        ensures
            match (r, self.spec_search_hit(index as int)) {
                (None, None) => true,
                (Some(SearchHit::Song(i)), Some(SearchHitView::Song(j))) => i == j,
                (Some(SearchHit::Artist(x)), Some(SearchHitView::Artist(y))) => x@ == y,
                (Some(SearchHit::Album(x)), Some(SearchHitView::Album(y))) => x@ == y,
                (Some(SearchHit::Playlist(x)), Some(SearchHitView::Playlist(y))) => x@ == y,
                _ => false,
            },
    {
        let mut i = index;
        if i < self.songs.len() {
            return Some(SearchHit::Song(i));
        }
        i = i - self.songs.len();
        if i < self.artists.len() {
            return Some(SearchHit::Artist(self.artists[i].duplicate()));
        }
        i = i - self.artists.len();
        if i < self.albums.len() {
            return Some(SearchHit::Album(self.albums[i].duplicate()));
        }
        i = i - self.albums.len();
        if i < self.playlists.len() {
            Some(SearchHit::Playlist(self.playlists[i].duplicate()))
        } else {
            None
        }
    }

    /// What `do_search` leaves and returns.
    pub open spec fn do_search_outcome(before: App, after: App, r: Option<Effect>) -> bool {
        &&& trim_ws(before.query@).len() == 0 ==> r is None && after == before
        &&& trim_ws(before.query@).len() > 0 ==> ({
                    &&& r matches Some(Effect::Search { query }) && query@ == trim_ws(before.query@)
                    &&& after.busy_tasks == crate::app::tasks::sat_inc(before.busy_tasks)
                    &&& after.status@ == "Buscando por \""@ + trim_ws(before.query@) + "\"..."@
                    &&& after == (App { busy_tasks: after.busy_tasks, status: after.status, ..before })
                })
    }

    /// Starts a search with the query trimmed of surrounding white space;
    /// nothing happens for a blank query.
    pub fn do_search(&mut self) -> (r: Option<Effect>)
        ensures
            App::do_search_outcome(*old(self), *final(self), r),
    {
        let q = trim(&chars_of(self.query.as_str()));
        if q.len() == 0 {
            return None;
        }
        let mut status = string_from("Buscando por \"");
        push_chars(&mut status, &q);
        push_str(&mut status, "\"...");
        self.status = status;
        self.begin_task();
        Some(Effect::Search { query: string_from_chars(&q) })
    }

    /// Asks for the top tracks of an artist; an artist without a page only
    /// gets a status message.
    pub fn load_artist(&mut self, browse_id: &String, name: &String) -> (r: Option<Effect>)
        ensures
            artist_loaded(*old(self), browse_id@, name@, *final(self), r),
    {
        if browse_id.as_str().is_empty() {
            self.status = string_from("Artista sem página disponível.");
            return None;
        }
        let mut status = string_from("Carregando artista \"");
        push_str(&mut status, name.as_str());
        push_str(&mut status, "\"...");
        self.status = status;
        self.begin_task();
        let mut title = string_from("Artist: ");
        push_str(&mut title, name.as_str());
        Some(Effect::LoadArtist { browse_id: crate::text::copy_string(browse_id), title })
    }

    /// Asks for the tracks of a playlist or album; `kind` labels the results.
    pub fn load_browse(&mut self, browse_id: &String, title: &String, kind: &str) -> (r: Effect)
        ensures
            browse_loaded(*old(self), browse_id@, title@, kind@, *final(self), r),
    {
        let mut status = string_from("Carregando \"");
        push_str(&mut status, title.as_str());
        push_str(&mut status, "\"...");
        self.status = status;
        self.begin_task();
        let mut label = string_from(kind);
        push_str(&mut label, ": ");
        push_str(&mut label, title.as_str());
        Effect::LoadCollection { browse_id: crate::text::copy_string(browse_id), title: label }
    }

    /// What `open_selected_artist` leaves and returns.
    pub open spec fn open_selected_artist_outcome(before: App, after: App, r: Option<Effect>) -> bool {
        &&& match before.selected {
                    Some(i) if i < before.artists@.len() => {
                        let a = before.artists@[i as int];
                        &&& a.browse_id@.len() == 0 ==> r is None && after.status@ == "Artista sem página disponível."@
                        &&& a.browse_id@.len() > 0 ==> (r matches Some(Effect::LoadArtist { browse_id, title })
                            && browse_id@ == a.browse_id@ && title@ == "Artist: "@ + a.name@)
                        &&& a.browse_id@.len() > 0 ==> after.busy_tasks == crate::app::tasks::sat_inc(before.busy_tasks)
                    },
                    _ => r is None && after == before,
                }
    }

    /// Opens the selected artist of the Artists list.
    pub fn open_selected_artist(&mut self) -> (r: Option<Effect>)
        ensures
            App::open_selected_artist_outcome(*old(self), *final(self), r),
    {
        let idx = match self.selected {
            Some(i) => i,
            None => {
                return None;
            },
        };
        if idx >= self.artists.len() {
            return None;
        }
        let browse_id = crate::text::copy_string(&self.artists[idx].browse_id);
        let name = crate::text::copy_string(&self.artists[idx].name);
        self.load_artist(&browse_id, &name)
    }

    /// What `open_selected_library_playlist` leaves and returns.
    pub open spec fn open_selected_library_playlist_outcome(before: App, after: App, r: Option<Effect>) -> bool {
        &&& match before.selected {
                    Some(i) if i < before.library@.len() => r matches Some(Effect::LoadCollection { browse_id, title })
                        && browse_id@ == before.library@[i as int].browse_id@
                        && title@ == "Playlist"@ + ": "@ + before.library@[i as int].title@,
                    _ => r is None && after == before,
                }
    }

    /// Opens the selected playlist of the Library.
    pub fn open_selected_library_playlist(&mut self) -> (r: Option<Effect>)
        ensures
            App::open_selected_library_playlist_outcome(*old(self), *final(self), r),
    {
        let idx = match self.selected {
            Some(i) => i,
            None => {
                return None;
            },
        };
        if idx >= self.library.len() {
            return None;
        }
        let browse_id = crate::text::copy_string(&self.library[idx].browse_id);
        let title = crate::text::copy_string(&self.library[idx].title);
        Some(self.load_browse(&browse_id, &title, "Playlist"))
    }

    /// What `open_selected_playlist` leaves and returns.
    pub open spec fn open_selected_playlist_outcome(before: App, after: App, r: Option<Effect>) -> bool {
        &&& match before.selected {
                    Some(i) if i < before.playlists@.len() => r matches Some(Effect::LoadCollection { browse_id, title })
                        && browse_id@ == before.playlists@[i as int].browse_id@
                        && title@ == "Playlist"@ + ": "@ + before.playlists@[i as int].title@,
                    _ => r is None && after == before,
                }
    }

    /// Opens the selected playlist of the Playlists list.
    pub fn open_selected_playlist(&mut self) -> (r: Option<Effect>)
        ensures
            App::open_selected_playlist_outcome(*old(self), *final(self), r),
    {
        let idx = match self.selected {
            Some(i) => i,
            None => {
                return None;
            },
        };
        if idx >= self.playlists.len() {
            return None;
        }
        let browse_id = crate::text::copy_string(&self.playlists[idx].browse_id);
        let title = crate::text::copy_string(&self.playlists[idx].title);
        Some(self.load_browse(&browse_id, &title, "Playlist"))
    }

    /// Makes the searched song at `j` the whole queue and remembers it as
    /// the seed of a radio of similar tracks.
    fn queue_searched_song(&mut self, j: usize)
        requires
            j < old(self).songs@.len(),
        ensures
            *final(self) == (App {
                pending_radio_seed: final(self).pending_radio_seed,
                queue: final(self).queue,
                queue_index: Some(0usize),
                next_index: None,
                shuffle_played: final(self).shuffle_played,
                ..*old(self)
            }),
            final(self).pending_radio_seed matches Some(seed) && seed@ == old(self).songs@[j as int].video_id@,
            tracks_view(final(self).queue@) == seq![old(self).songs@[j as int]@],
            final(self).shuffle_played@.len() == 0,
            final(self).wf() <== old(self).theme_index < old(self).theme_names@.len() && distinct_strings(old(self).liked@),
    {
        let track = self.songs[j].duplicate();
        self.pending_radio_seed = Some(copy_string(&track.video_id));
        let mut q: Vec<Track> = Vec::new();
        q.push(track);
        proof {
            assert(tracks_view(q@) =~= seq![old(self).songs@[j as int]@]);
        }
        self.queue = q;
        self.queue_index = Some(0);
        self.next_index = None;
        self.shuffle_played = Vec::new();
    }

    /// Makes the search results the queue, starting at the selected row
    /// (clamped to the list).
    fn queue_songs(&mut self)
        requires
            old(self).songs@.len() > 0,
        ensures
            *final(self) == (App {
                queue: final(self).queue,
                queue_index: Some(clamped_row(old(self).selected, old(self).songs@.len() as int) as usize),
                next_index: None,
                shuffle_played: final(self).shuffle_played,
                ..*old(self)
            }),
            tracks_view(final(self).queue@) == tracks_view(old(self).songs@),
            final(self).shuffle_played@.len() == 0,
            final(self).wf() <== old(self).theme_index < old(self).theme_names@.len() && distinct_strings(old(self).liked@),
    {
        let idx = clamp_row(self.selected, self.songs.len());
        let q = copy_tracks(&self.songs);
        proof {
            assert(q@.len() == tracks_view(q@).len());
            assert(self.songs@.len() == tracks_view(self.songs@).len());
        }
        self.queue = q;
        self.queue_index = Some(idx);
        self.next_index = None;
        self.shuffle_played = Vec::new();
    }

    /// Resolves Enter on the current list: builds the queue and reports
    /// that playback can start, or asks for an artist, album or playlist to
    /// be opened (see [`prepared`]).
    pub fn prepare_selection_for_playback(&mut self) -> (r: (bool, Option<Effect>))
        requires
            old(self).wf(),
        ensures
            prepared(*old(self), *final(self), r.0, r.1),
            final(self).wf(),
    {
        match self.section {
            Section::Buscar => {
                if self.search_mixed {
                    match self.selected {
                        Some(i) => self.prepare_search_hit(i),
                        None => (false, None),
                    }
                } else {
                    if self.songs.len() == 0 {
                        return (false, None);
                    }
                    self.queue_songs();
                    (true, None)
                }
            },
            Section::Fila => {
                if self.queue.len() == 0 {
                    return (false, None);
                }
                self.queue_index = Some(clamp_row(self.selected, self.queue.len()));
                (true, None)
            },
            _ => (false, None),
        }
    }

    /// Resolves Enter on row `i` of the mixed search results.
    #[verifier::spinoff_prover]
    fn prepare_search_hit(&mut self, i: usize) -> (r: (bool, Option<Effect>))
        requires
            old(self).wf(),
            old(self).section == Section::Buscar,
            old(self).search_mixed,
            old(self).selected == Some(i),
        ensures
            prepared(*old(self), *final(self), r.0, r.1),
            final(self).wf(),
    {
        match self.search_hit_at(i) {
            Some(SearchHit::Song(j)) => {
                self.queue_searched_song(j);
                (true, None)
            },
            Some(SearchHit::Artist(a)) => {
                let e = self.load_artist(&a.browse_id, &a.name);
                (false, e)
            },
            Some(SearchHit::Album(p)) => {
                let e = self.load_browse(&p.browse_id, &p.title, "Album");
                (false, Some(e))
            },
            Some(SearchHit::Playlist(p)) => {
                let e = self.load_browse(&p.browse_id, &p.title, "Playlist");
                (false, Some(e))
            },
            None => (false, None),
        }
    }

    /// What `play_selected` leaves and returns.
    pub open spec fn play_selected_outcome(before: App, after: App, r: Vec<Effect>) -> bool {
        &&& after.wf()
        &&& (r@.len() <= 1 && prepared(before, after, false, if r@.len() == 0 { None } else { Some(r@[0]) }))
                || exists|mid: App| {
                    &&& #[trigger] prepared(before, mid, true, None)
                    &&& started(mid, mid.spec_played(), mid.queue_index->0 as int, App { pending_radio_seed: mid.pending_radio_seed, ..after })
                    &&& after.pending_radio_seed is None
                    &&& r@.len() >= 1
                    &&& plays(mid, mid.queue_index->0 as int, after, Some(r@[0]))
                    &&& r@.len() == (if mid.pending_radio_seed is Some && mid.capabilities.radio { 2int } else { 1int })
                    &&& r@.len() == 2 ==> (r@[1] matches Effect::Related { seed } && seed@ == mid.pending_radio_seed->0@)
                }
    }

    /// Plays the selected row of the current list (search results or
    /// queue), making the list the queue. A searched song starts a radio of
    /// similar tracks, fetched in the background and appended behind it.
    pub fn play_selected(&mut self) -> (r: Vec<Effect>)
        requires
            old(self).wf(),
        ensures
            App::play_selected_outcome(*old(self), *final(self), r),
    {
        let (ready, e) = self.prepare_selection_for_playback();
        let ghost e0 = e;
        let mut effects: Vec<Effect> = Vec::new();
        if !ready {
            match e {
                Some(x) => effects.push(x),
                None => {},
            }
            assert(prepared(*old(self), *self, false, e0));
            return effects;
        }
        let ghost mid = *self;
        let qi = match self.queue_index {
            Some(i) => i,
            None => 0,
        };
        let first = self.start_current();
        proof {
            lemma_started_queue(mid, mid.spec_played(), qi as int, *self);
        }
        match first {
            Some(x) => effects.push(x),
            None => {},
        }
        let ghost after_start = *self;
        let seed = self.pending_radio_seed.take();
        match seed {
            Some(seed) => {
                if self.capabilities.radio {
                    effects.push(Effect::Related { seed });
                }
            },
            None => {},
        }
        proof {
            assert(App { pending_radio_seed: mid.pending_radio_seed, ..*self } == after_start);
            assert(prepared(*old(self), mid, true, None));
        }
        effects
    }

    /// Appends the similar tracks of a radio behind the queue, skipping
    /// those already queued, but only while `seed` is still the playing
    /// track (late replies for a skipped track are dropped). Returns how
    /// many entries were added.
    #[verifier::spinoff_prover]
    pub fn append_related(&mut self, seed: &str, tracks: Vec<Track>) -> (r: usize)
        requires
            old(self).wf(),
            old(self).queue@.len() + tracks@.len() <= usize::MAX,
        ensures
            final(self).wf(),
            !(old(self).current matches Some(t) && t.video_id@ == seed@) ==> r == 0 && *final(self) == *old(self),
            (old(self).current matches Some(t) && t.video_id@ == seed@) ==> ({
                &&& tracks_view(final(self).queue@) == appended(tracks_view(old(self).queue@), tracks_view(tracks@))
                &&& final(self).queue@.subrange(0, old(self).queue@.len() as int) == old(self).queue@
                &&& r == final(self).queue@.len() - old(self).queue@.len()
                &&& r == 0 ==> *final(self) == (App { queue: final(self).queue, ..*old(self) }) && final(self).queue@ == old(self).queue@
                &&& r > 0 ==> *final(self) == (App {
                    queue: final(self).queue,
                    next_index: final(self).next_index,
                    rng_state: final(self).rng_state,
                    shuffle_played: final(self).shuffle_played,
                    ..*old(self)
                }) && next_recomputed(
                    track_ids(final(self).queue@),
                    old(self).spec_played(),
                    old(self).shuffle,
                    old(self).rng_state,
                    old(self).queue_index,
                    old(self).repeat,
                    *final(self),
                )
            }),
    {
        if !self.is_current_track(seed) {
            return 0;
        }
        let before = self.queue.len();
        append_unique(&mut self.queue, &tracks);
        let added = self.queue.len() - before;
        if added > 0 {
            self.recompute_next();
        } else {
            proof {
                assert(self.queue@ =~= old(self).queue@);
            }
        }
        added
    }
}

/// `q` followed by the tracks of `ts` whose identifier is not queued yet
/// (counting those appended before them).
pub open spec fn appended(q: Seq<TrackView>, ts: Seq<TrackView>) -> Seq<TrackView>
    decreases ts.len(),
{
    if ts.len() == 0 {
        q
    } else {
        let q1 = appended(q, ts.drop_last());
        if q1.map_values(|t: TrackView| t.video_id).contains(ts.last().video_id) {
            q1
        } else {
            q1.push(ts.last())
        }
    }
}

proof fn lemma_appended_prefix(q: Seq<TrackView>, ts: Seq<TrackView>)
    ensures
        q.len() <= appended(q, ts).len() <= q.len() + ts.len(),
        appended(q, ts).subrange(0, q.len() as int) == q,
    decreases ts.len(),
{
    if ts.len() > 0 {
        lemma_appended_prefix(q, ts.drop_last());
        let q1 = appended(q, ts.drop_last());
        assert(q1.push(ts.last()).subrange(0, q.len() as int) =~= q1.subrange(0, q.len() as int));
    }
}

/// Whether some track of `q` has identifier `id`.
fn queue_has(q: &Vec<Track>, id: &String) -> (r: bool)
    ensures
        r == tracks_view(q@).map_values(|t: TrackView| t.video_id).contains(id@),
{
    let ghost ids = tracks_view(q@).map_values(|t: TrackView| t.video_id);
    let mut i: usize = 0;
    while i < q.len()
        invariant
            i <= q@.len(),
            ids == tracks_view(q@).map_values(|t: TrackView| t.video_id),
            forall|j: int| 0 <= j < i ==> q@[j].video_id@ != id@,
        decreases q@.len() - i,
    {
        if str_eq(q[i].video_id.as_str(), id.as_str()) {
            assert(ids[i as int] == id@);
            return true;
        }
        i = i + 1;
    }
    proof {
        if ids.contains(id@) {
            let j = choose|j: int| 0 <= j < ids.len() && ids[j] == id@;
            assert(q@[j].video_id@ == id@);
        }
    }
    false
}

/// Appends to `q` the tracks of `ts` whose identifier is not in it yet.
fn append_unique(q: &mut Vec<Track>, ts: &Vec<Track>)
    requires
        old(q)@.len() + ts@.len() <= usize::MAX,
    ensures
        tracks_view(final(q)@) == appended(tracks_view(old(q)@), tracks_view(ts@)),
        final(q)@.subrange(0, old(q)@.len() as int) == old(q)@,
        old(q)@.len() <= final(q)@.len() <= old(q)@.len() + ts@.len(),
{
    let ghost q0 = q@;
    let mut i: usize = 0;
    while i < ts.len()
        invariant
            i <= ts@.len(),
            q0.len() + ts@.len() <= usize::MAX,
            tracks_view(q@) == appended(tracks_view(q0), tracks_view(ts@.take(i as int))),
            q@.subrange(0, q0.len() as int) == q0,
            q0.len() <= q@.len() <= q0.len() + i,
        decreases ts@.len() - i,
    {
        proof {
            assert(tracks_view(ts@.take(i + 1)).drop_last() =~= tracks_view(ts@.take(i as int)));
            lemma_appended_prefix(tracks_view(q0), tracks_view(ts@.take(i as int)));
        }
        if !queue_has(q, &ts[i].video_id) {
            let ghost before = q@;
            q.push(ts[i].duplicate());
            proof {
                assert(tracks_view(q@) =~= tracks_view(before).push(ts@[i as int]@));
                assert(q@.subrange(0, q0.len() as int) =~= before.subrange(0, q0.len() as int));
            }
        }
        i = i + 1;
    }
    assert(ts@.take(ts@.len() as int) =~= ts@);
}

/// The selected row, or the first when nothing is selected, clamped to a
/// list of `len` rows.
pub open spec fn clamped_row(selected: Option<usize>, len: int) -> int {
    let i = match selected { Some(i) => i as int, None => 0 };
    if i < len - 1 { i } else { len - 1 }
}

/// The selected row clamped to a list of `len` rows.
fn clamp_row(selected: Option<usize>, len: usize) -> (r: usize)
    requires
        len > 0,
    ensures
        r == clamped_row(selected, len as int),
{
    let i = match selected {
        Some(i) => i,
        None => 0,
    };
    if i < len - 1 { i } else { len - 1 }
}

/// Whether `after`, `ready` and `e` are what resolving Enter on the current
/// list of `before` gives. A searched song becomes the whole queue and the
/// seed of a radio; the search results or the queue start at the selected
/// row; an artist, album or playlist is asked for instead.
pub open spec fn prepared(before: App, after: App, ready: bool, e: Option<Effect>) -> bool {
    match before.section {
        Section::Buscar => if before.search_mixed {
            match before.selected {
                None => !ready && e is None && after == before,
                Some(i) => match before.spec_search_hit(i as int) {
                    None => !ready && e is None && after == before,
                    Some(SearchHitView::Song(j)) => {
                        &&& ready
                        &&& e is None
                        &&& after == (App {
                            pending_radio_seed: after.pending_radio_seed,
                            queue: after.queue,
                            queue_index: Some(0usize),
                            next_index: None,
                            shuffle_played: after.shuffle_played,
                            ..before
                        })
                        &&& after.pending_radio_seed matches Some(seed) && seed@ == before.songs@[j].video_id@
                        &&& tracks_view(after.queue@) == seq![before.songs@[j]@]
                        &&& after.shuffle_played@.len() == 0
                    },
                    Some(SearchHitView::Artist(a)) => !ready && artist_loaded(before, a.browse_id, a.name, after, e),
                    Some(SearchHitView::Album(p)) => !ready && (e matches Some(x)
                        && browse_loaded(before, p.browse_id, p.title, "Album"@, after, x)),
                    Some(SearchHitView::Playlist(p)) => !ready && (e matches Some(x)
                        && browse_loaded(before, p.browse_id, p.title, "Playlist"@, after, x)),
                },
            }
        } else if before.songs@.len() == 0 {
            !ready && e is None && after == before
        } else {
            &&& ready
            &&& e is None
            &&& after == (App {
                queue: after.queue,
                queue_index: Some(clamped_row(before.selected, before.songs@.len() as int) as usize),
                next_index: None,
                shuffle_played: after.shuffle_played,
                ..before
            })
            &&& tracks_view(after.queue@) == tracks_view(before.songs@)
            &&& after.shuffle_played@.len() == 0
        },
        Section::Fila => if before.queue@.len() == 0 {
            !ready && e is None && after == before
        } else {
            ready && e is None && after == (App {
                queue_index: Some(clamped_row(before.selected, before.queue@.len() as int) as usize),
                ..before
            })
        },
        _ => !ready && e is None && after == before,
    }
}

/// Whether `after` and `r` are what asking for the top tracks of the
/// artist `browse_id` named `name` gives: nothing but a message for an
/// artist without a page.
pub open spec fn artist_loaded(before: App, browse_id: Seq<char>, name: Seq<char>, after: App, r: Option<Effect>) -> bool {
    &&& browse_id.len() == 0 ==> r is None && after.status@ == "Artista sem página disponível."@
        && after == (App { status: after.status, ..before })
    &&& browse_id.len() > 0 ==> ({
        &&& r matches Some(Effect::LoadArtist { browse_id: b, title }) && b@ == browse_id
            && title@ == "Artist: "@ + name
        &&& after.status@ == "Carregando artista \""@ + name + "\"..."@
        &&& after == (App {
            busy_tasks: crate::app::tasks::sat_inc(before.busy_tasks),
            status: after.status,
            ..before
        })
    })
}

/// Whether `after` and `r` are what asking for the tracks of collection
/// `browse_id` titled `title`, labelled `kind`, gives.
pub open spec fn browse_loaded(before: App, browse_id: Seq<char>, title: Seq<char>, kind: Seq<char>, after: App, r: Effect) -> bool {
    &&& r matches Effect::LoadCollection { browse_id: b, title: t } && b@ == browse_id && t@ == kind + ": "@ + title
    &&& after.status@ == "Carregando \""@ + title + "\"..."@
    &&& after == (App {
        busy_tasks: crate::app::tasks::sat_inc(before.busy_tasks),
        status: after.status,
        ..before
    })
}

/// `s` without leading and trailing white space.
pub open spec fn trim_ws(s: Seq<char>) -> Seq<char> {
    let start = crate::doctor::leading_ws(s) as int;
    let rest = s.subrange(start, s.len() as int);
    rest.subrange(0, rest.len() - trailing_ws(rest))
}

/// Number of trailing white-space characters.
pub open spec fn trailing_ws(s: Seq<char>) -> int
    decreases s.len(),
{
    if s.len() > 0 && crate::text::is_ws(s.last()) {
        1 + trailing_ws(s.drop_last())
    } else {
        0
    }
}

proof fn lemma_trailing_bound(s: Seq<char>)
    ensures
        0 <= trailing_ws(s) <= s.len(),
    decreases s.len(),
{
    if s.len() > 0 && crate::text::is_ws(s.last()) {
        lemma_trailing_bound(s.drop_last());
    }
}

proof fn lemma_leading_bound(s: Seq<char>)
    ensures
        crate::doctor::leading_ws(s) <= s.len(),
    decreases s.len(),
{
    if s.len() > 0 && crate::text::is_ws(s[0]) {
        lemma_leading_bound(s.drop_first());
    }
}

/// `cs` without leading and trailing white space.
pub fn trim(cs: &Vec<char>) -> (r: Vec<char>)
    ensures
        r@ == trim_ws(cs@),
{
    let mut start: usize = 0;
    assert(cs@.subrange(0, cs@.len() as int) =~= cs@);
    while start < cs.len() && crate::text::is_whitespace(cs[start])
        invariant
            start <= cs@.len(),
            crate::doctor::leading_ws(cs@) == start + crate::doctor::leading_ws(cs@.subrange(start as int, cs@.len() as int)),
        decreases cs@.len() - start,
    {
        assert(cs@.subrange(start as int, cs@.len() as int).drop_first() =~= cs@.subrange(start + 1, cs@.len() as int));
        start = start + 1;
    }
    let rest = crate::text::sub_chars(cs, start, cs.len());
    let mut end: usize = rest.len();
    assert(rest@.subrange(0, rest@.len() as int) =~= rest@);
    while end > 0 && crate::text::is_whitespace(rest[end - 1])
        invariant
            end <= rest@.len(),
            trailing_ws(rest@) == (rest@.len() - end) + trailing_ws(rest@.subrange(0, end as int)),
        decreases end,
    {
        assert(rest@.subrange(0, end as int).drop_last() =~= rest@.subrange(0, end - 1));
        end = end - 1;
    }
    proof {
        lemma_trailing_bound(rest@);
    }
    crate::text::sub_chars(&rest, 0, end)
}

} // verus!
