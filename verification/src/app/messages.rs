//! Applying the outcomes of background work to the application state.
//!
//! Each outcome arrives as a [`Msg`]; [`App::apply`] updates the state for
//! it and returns the follow-up work as [`Effect`]s. Replies bound to an
//! account carry the session generation they were started for, and replies
//! for a track carry its identifier: a reply for an older session or for a
//! track that no longer plays changes nothing but the task counter.

use vstd::prelude::*;
use crate::app::{App, Effect, Msg, Section};
use crate::app::playback::{finished, lemma_started_queue, plays, started};
use crate::app::queue::{next_recomputed, track_ids};
use crate::app::search::appended;
use crate::app::tasks::sat_dec;
use crate::home::{HomeCardView, HomeKey, flat_cards, spec_project};
use crate::lyrics::LyricsState;
use crate::models::{
    Lyrics, Playlist, PlaylistView, SearchResults, Track, playlists_view, sections_view, tracks_view, HomeSection,
};
use crate::provider::{AuthState, ProviderError};
use crate::text::{copy_string, decimal, decimal_string, push_chars, push_str, str_eq, string_from};
use crate::ui::state::{UiState, section_marked};

verus! {

/// The first position of a collection with identifier `id`, if any.
pub open spec fn collection_position(s: Seq<PlaylistView>, id: Seq<char>) -> Option<int>
    decreases s.len(),
{
    if s.len() == 0 {
        None
    } else {
        match collection_position(s.drop_last(), id) {
            Some(j) => Some(j),
            None => if s.last().browse_id == id { Some(s.len() - 1) } else { None },
        }
    }
}

/// The first position of a card with key `key`, if any.
pub open spec fn key_position(s: Seq<HomeCardView>, key: Seq<char>) -> Option<int>
    decreases s.len(),
{
    if s.len() == 0 {
        None
    } else {
        match key_position(s.drop_last(), key) {
            Some(j) => Some(j),
            None => if s.last().key == key { Some(s.len() - 1) } else { None },
        }
    }
}

proof fn lemma_key_position(s: Seq<HomeCardView>, key: Seq<char>, r: Option<int>)
    requires
        match r {
            Some(i) => 0 <= i < s.len() && s[i].key == key && forall|j: int| 0 <= j < i ==> s[j].key != key,
            None => forall|j: int| 0 <= j < s.len() ==> s[j].key != key,
        },
    ensures
        key_position(s, key) == r,
    decreases s.len(),
{
    if s.len() > 0 {
        let t = s.drop_last();
        match r {
            Some(i) => {
                if i < s.len() - 1 {
                    lemma_key_position(t, key, Some(i));
                } else {
                    assert forall|j: int| 0 <= j < t.len() implies t[j].key != key by {
                        assert(t[j] == s[j]);
                    }
                    lemma_key_position(t, key, None);
                }
            },
            None => {
                assert forall|j: int| 0 <= j < t.len() implies t[j].key != key by {
                    assert(t[j] == s[j]);
                }
                lemma_key_position(t, key, None);
            },
        }
    }
}

/// `i` clamped to the last of `n` rows (to 0 on an empty list).
pub open spec fn clamp_last(i: int, n: int) -> int {
    let last = if n > 0 { n - 1 } else { 0 };
    if i < last { i } else { last }
}

/// The selection kept across a refresh of a list: the row now holding the
/// previously selected item, else the top on a first load, else the old
/// row; clamped to the list, and nothing on an empty list.
pub open spec fn kept_selection(found: Option<int>, was_empty: bool, selected: Option<usize>, n: int) -> Option<usize> {
    let index: Option<int> = match found {
        Some(k) => Some(k),
        None => if was_empty {
            Some(0)
        } else {
            match selected {
                Some(i) => Some(i as int),
                None => None,
            }
        },
    };
    if n == 0 {
        None
    } else {
        match index {
            Some(i) => Some(clamp_last(i, n) as usize),
            None => None,
        }
    }
}

fn keep_selection(found: Option<usize>, was_empty: bool, selected: Option<usize>, n: usize) -> (r: Option<usize>)
    ensures
        r == kept_selection(match found { Some(k) => Some(k as int), None => None }, was_empty, selected, n as int),
{
    let index = match found {
        Some(k) => Some(k),
        None => if was_empty { Some(0) } else { selected },
    };
    if n == 0 {
        None
    } else {
        match index {
            Some(i) => Some(if i < n - 1 { i } else { n - 1 }),
            None => None,
        }
    }
}

/// The first position in `list` of a collection with identifier `id`.
fn find_collection(list: &Vec<Playlist>, id: &String) -> (r: Option<usize>)
    ensures
        match r {
            Some(k) => collection_position(playlists_view(list@), id@) == Some(k as int),
            None => collection_position(playlists_view(list@), id@) is None,
        },
{
    let ghost s = playlists_view(list@);
    let mut i: usize = 0;
    while i < list.len()
        invariant
            i <= list@.len(),
            s == playlists_view(list@),
            collection_position(s.take(i as int), id@) is None,
        decreases list@.len() - i,
    {
        proof {
            assert(s.take(i + 1).drop_last() =~= s.take(i as int));
        }
        if str_eq(list[i].browse_id.as_str(), id.as_str()) {
            proof {
                lemma_collection_prefix(s, id@, i + 1);
            }
            return Some(i);
        }
        i = i + 1;
    }
    assert(s.take(list@.len() as int) =~= s);
    None
}

proof fn lemma_collection_prefix(s: Seq<PlaylistView>, id: Seq<char>, k: int)
    requires
        0 <= k <= s.len(),
        collection_position(s.take(k), id) is Some,
    ensures
        collection_position(s, id) == collection_position(s.take(k), id),
    decreases s.len() - k,
{
    if k < s.len() {
        assert(s.take(k + 1).drop_last() =~= s.take(k));
        lemma_collection_prefix(s, id, k + 1);
    } else {
        assert(s.take(k) =~= s);
    }
}

/// Appends the decimal digits of `n`.
fn push_count(s: &mut String, n: usize)
    ensures
        final(s)@ == old(s)@ + decimal(n as nat),
{
    let d = decimal_string(n as u64);
    push_chars(s, &d);
}

/// Whether `after` is `before` once search results `res` arrived: they
/// replace the lists, the Search section opens with its first row
/// selected, and the counts are reported.
pub open spec fn search_applied(before: App, res: SearchResults, after: App) -> bool {
    &&& after == (App {
        songs: res.songs,
        songs_title: after.songs_title,
        playlists: res.playlists,
        artists: res.artists,
        albums: res.albums,
        search_mixed: true,
        section: Section::Buscar,
        sidebar_index: 1,
        selected: Some(0usize),
        busy_tasks: sat_dec(before.busy_tasks),
        status: after.status,
        ui: UiState { anim: after.ui.anim, ..before.ui },
        ..before
    })
    &&& section_marked(before.ui.anim, after.ui.anim)
    &&& after.songs_title@ == "Search results"@
    &&& after.status@ == decimal(res.songs@.len()) + " músicas, "@ + decimal(res.artists@.len()) + " artistas, "@
        + decimal(res.albums@.len()) + " álbuns, "@ + decimal(res.playlists@.len()) + " playlists."@
}

/// Whether `after` is `before` once the library `pls` arrived: on the
/// Library screen the selection stays on the same playlist, and only the
/// first load is announced.
pub open spec fn library_applied(before: App, pls: Seq<Playlist>, after: App) -> bool {
    let was_empty = before.library@.len() == 0;
    let n = pls.len() as int;
    let previous: Option<Seq<char>> = if before.section == Section::Biblioteca {
        match before.selected {
            Some(i) => if i < before.library@.len() { Some(before.library@[i as int].browse_id@) } else { None },
            None => None,
        }
    } else {
        None
    };
    let found = match previous {
        Some(id) => collection_position(playlists_view(pls), id),
        None => None,
    };
    &&& after == (App {
        library: after.library,
        busy_tasks: sat_dec(before.busy_tasks),
        selected: if before.section == Section::Biblioteca {
            kept_selection(found, was_empty, before.selected, n)
        } else {
            before.selected
        },
        status: after.status,
        ..before
    })
    &&& after.library@ == pls
    &&& if was_empty && n > 0 {
        after.status@ == "Library loaded: "@ + decimal(n as nat) + " playlist(s). Open Library in the menu."@
    } else {
        after.status == before.status
    }
}

/// Whether `after` is `before` once the Home sections `sections` arrived:
/// any previous error clears, and on the Home screen the selection stays
/// on the card with the same key.
pub open spec fn home_applied(before: App, sections: Seq<HomeSection>, after: App) -> bool {
    let was_empty = before.home@.len() == 0;
    let old_cards = flat_cards(before.spec_home_view());
    let new_cards = flat_cards(spec_project(before.provider_id@, tracks_view(before.recent@), sections_view(sections)));
    let previous: Option<Seq<char>> = if before.section == Section::Inicio {
        match before.selected {
            Some(i) => if i < old_cards.len() { Some(old_cards[i as int].key) } else { None },
            None => None,
        }
    } else {
        None
    };
    let found = match previous {
        Some(k) => key_position(new_cards, k),
        None => None,
    };
    &&& after == (App {
        home: after.home,
        home_error: None,
        busy_tasks: sat_dec(before.busy_tasks),
        selected: if before.section == Section::Inicio {
            kept_selection(found, was_empty, before.selected, new_cards.len() as int)
        } else {
            before.selected
        },
        ..before
    })
    &&& after.home@ == sections
}

/// Whether `after` is `before` once loading recommendations failed with
/// `message`: the cached shelves stay and the error shows.
pub open spec fn home_failed_applied(before: App, message: String, after: App) -> bool {
    &&& after == (App {
        busy_tasks: sat_dec(before.busy_tasks),
        home_error: Some(message),
        status: after.status,
        ..before
    })
    &&& after.status@ == "⚠ Falha ao carregar recomendações — R recarrega."@
}

/// Whether `after` is `before` once the account name `name` arrived; a
/// name already shown is kept.
pub open spec fn account_name_applied(before: App, name: Option<String>, after: App) -> bool {
    after == (App {
        busy_tasks: sat_dec(before.busy_tasks),
        account_name: if name is Some && before.account_name is None { name } else { before.account_name },
        ..before
    })
}

/// Whether `after` is `before` once the session expired.
pub open spec fn session_expired_applied(before: App, after: App) -> bool {
    &&& after == (App {
        busy_tasks: sat_dec(before.busy_tasks),
        authentication: AuthState::Expired,
        library: after.library,
        account_name: None,
        status: after.status,
        ..before
    })
    &&& after.library@.len() == 0
    &&& after.status@ == "Session expired. Press g to sign in again from your browser (music.youtube.com must be signed in there)."@
}

/// Whether `after` is `before` once the tracks `tracks` titled `title`
/// arrived: they open in the search section, and the sidebar moves there
/// with it so the next step through the sections starts from it.
pub open spec fn playlist_tracks_applied(before: App, title: String, tracks: Vec<Track>, after: App) -> bool {
    &&& after == (App {
        busy_tasks: sat_dec(before.busy_tasks),
        songs: tracks,
        songs_title: title,
        search_mixed: false,
        section: Section::Buscar,
        sidebar_index: 1,
        selected: Some(0usize),
        status: after.status,
        ui: UiState { anim: after.ui.anim, ..before.ui },
        ..before
    })
    &&& section_marked(before.ui.anim, after.ui.anim)
    &&& after.status@ == decimal(tracks@.len()) + " faixas carregadas."@
}

/// Whether `after` is `before` once the lyrics `lyrics` of track
/// `video_id` arrived: they show only while that track plays.
pub open spec fn lyrics_applied(before: App, video_id: Seq<char>, lyrics: Option<Lyrics>, after: App) -> bool {
    &&& !(before.current matches Some(t) && t.video_id@ == video_id) ==> after == before
    &&& (before.current matches Some(t) && t.video_id@ == video_id) ==> after == (App {
        lyrics: match lyrics {
            Some(Lyrics::Synced(lines)) => LyricsState::Synced { lines, active: None },
            Some(Lyrics::Plain(text)) => LyricsState::Plain(text),
            None => LyricsState::NotAvailable,
        },
        ..before
    })
}

/// Whether `r` is what the cover `bytes` of track `video_id` asks for.
pub open spec fn artwork_applied(before: App, video_id: Seq<char>, bytes: Vec<u8>, r: Option<Effect>) -> bool {
    &&& (before.current matches Some(t) && t.video_id@ == video_id) ==> r == Some(Effect::ShowArtwork { bytes })
    &&& !(before.current matches Some(t) && t.video_id@ == video_id) ==> r is None
}

/// Whether `after` and `r` are what the audio `path` of track `video_id`
/// gives: it plays only while that track is current.
pub open spec fn audio_ready_applied(before: App, video_id: Seq<char>, path: String, after: App, r: Option<Effect>) -> bool {
    &&& !(before.current matches Some(t) && t.video_id@ == video_id) ==> r is None && after == before
    &&& (before.current matches Some(t) && t.video_id@ == video_id) ==> ({
        let t = before.current->0;
        &&& r == Some(Effect::PlayFile { path })
        &&& after == (App { loading_audio: false, status: after.status, ..before })
        &&& after.status@ == "▶ Tocando: "@ + t.title@ + " — "@ + t.artist@
    })
}

/// Whether `after` is `before` once a background task failed with
/// `message`.
pub open spec fn error_applied(before: App, message: Seq<char>, after: App) -> bool {
    &&& after == (App {
        loading_audio: false,
        busy_tasks: sat_dec(before.busy_tasks),
        status: after.status,
        ..before
    })
    &&& after.status@ == "⚠ "@ + message
}

/// Whether `after` and `r` are what a reply `msg` bound to session
/// generation `generation` gives.
pub open spec fn for_session_applied(before: App, generation: u64, msg: Msg, after: App, r: Option<Effect>) -> bool {
    &&& generation == before.session_generation ==> r == Some(Effect::Requeue(msg)) && after == before
    &&& generation != before.session_generation ==> r is None
        && after == (App { busy_tasks: sat_dec(before.busy_tasks), ..before })
}

/// Whether `after` and `r` are what the radio `tracks` asked for at the
/// end of the queue gives: an empty radio ends the queue; otherwise the
/// tracks join the queue and the first of them plays.
pub open spec fn radio_applied(before: App, tracks: Seq<Track>, after: App, r: Option<Effect>) -> bool {
    &&& tracks.len() == 0 ==> r == Some(Effect::StopPlayer) && finished(before, after)
    &&& tracks.len() > 0 ==> {
        let start = before.queue@.len() as int;
        &&& after.queue@ == before.queue@ + tracks
        &&& started(
            App { queue: after.queue, queue_index: Some(start as usize), ..before },
            before.spec_played(),
            start,
            after,
        )
        &&& plays(App { queue: after.queue, ..before }, start, after, r)
    }
}

/// Whether `after` and `r` are what the similar tracks `tracks` of `seed`
/// give: appended behind the playing seed (see [`App::append_related`]),
/// reported, and the next entry pre-fetched.
pub open spec fn related_applied(before: App, seed: Seq<char>, tracks: Seq<Track>, after: App, r: Option<Effect>) -> bool {
    let playing = before.current matches Some(t) && t.video_id@ == seed;
    &&& !playing ==> r is None && after == before
    &&& playing ==> ({
        let added = after.queue@.len() - before.queue@.len();
        &&& tracks_view(after.queue@) == appended(tracks_view(before.queue@), tracks_view(tracks))
        &&& after.queue@.subrange(0, before.queue@.len() as int) == before.queue@
        &&& added == 0 ==> r is None && after == (App { queue: after.queue, ..before }) && after.queue@ == before.queue@
        &&& added > 0 ==> {
            &&& after == (App {
                queue: after.queue,
                next_index: after.next_index,
                rng_state: after.rng_state,
                shuffle_played: after.shuffle_played,
                status: after.status,
                ..before
            })
            &&& next_recomputed(
                track_ids(after.queue@),
                before.spec_played(),
                before.shuffle,
                before.rng_state,
                before.queue_index,
                before.repeat,
                after,
            )
            &&& after.status@ == "📻 +"@ + decimal(added as nat) + " músicas semelhantes na fila."@
            &&& r == match after.next_index {
                Some(n) => Some(Effect::Prefetch { index: n }),
                None => None,
            }
        }
    })
}

impl App {
    /// Search results arrived (see [`search_applied`]).
    pub fn on_search_results(&mut self, res: SearchResults)
        ensures
            search_applied(*old(self), res, *final(self)),
    {
        let ghost r0 = res;
        self.finish_task();
        let mut status = string_from("");
        push_count(&mut status, res.songs.len());
        push_str(&mut status, " músicas, ");
        push_count(&mut status, res.artists.len());
        push_str(&mut status, " artistas, ");
        push_count(&mut status, res.albums.len());
        push_str(&mut status, " álbuns, ");
        push_count(&mut status, res.playlists.len());
        push_str(&mut status, " playlists.");
        self.songs = res.songs;
        self.songs_title = string_from("Search results");
        self.playlists = res.playlists;
        self.artists = res.artists;
        self.albums = res.albums;
        self.search_mixed = true;
        self.set_section(Section::Buscar);
        self.sidebar_index = 1;
        self.status = status;
        self.selected = Some(0);
        proof {
            reveal_strlit("");
            assert(status@ =~= decimal(r0.songs@.len()) + " músicas, "@ + decimal(r0.artists@.len()) + " artistas, "@
                + decimal(r0.albums@.len()) + " álbuns, "@ + decimal(r0.playlists@.len()) + " playlists."@);
        }
    }

    /// The library arrived (see [`library_applied`]).
    pub fn on_library_playlists(&mut self, pls: Vec<Playlist>)
        ensures
            library_applied(*old(self), pls@, *final(self)),
    {
        self.finish_task();
        let was_empty = self.library.len() == 0;
        let previous: Option<String> = if self.section == Section::Biblioteca {
            match self.selected {
                Some(i) => if i < self.library.len() { Some(copy_string(&self.library[i].browse_id)) } else { None },
                None => None,
            }
        } else {
            None
        };
        let found = match &previous {
            Some(id) => find_collection(&pls, id),
            None => None,
        };
        let n = pls.len();
        self.library = pls;
        if self.section == Section::Biblioteca {
            self.selected = keep_selection(found, was_empty, self.selected, n);
        }
        if was_empty && n > 0 {
            let mut status = string_from("Library loaded: ");
            push_count(&mut status, n);
            push_str(&mut status, " playlist(s). Open Library in the menu.");
            self.status = status;
        }
    }

    /// The key of the Home card at the selection, on the Home screen.
    fn selected_home_key(&self) -> (r: Option<HomeKey>)
        ensures
            match r {
                Some(k) => self.section == Section::Inicio && (self.selected matches Some(i)
                    && i < flat_cards(self.spec_home_view()).len()
                    && k@ == flat_cards(self.spec_home_view())[i as int].key),
                None => !(self.section == Section::Inicio && (self.selected matches Some(i)
                    && i < flat_cards(self.spec_home_view()).len())),
            },
    {
        if self.section != Section::Inicio {
            return None;
        }
        let i = match self.selected {
            Some(i) => i,
            None => {
                return None;
            },
        };
        let view = self.home_view();
        match view.flat_card(i) {
            Some(card) => Some(card.key.duplicate()),
            None => None,
        }
    }

    /// The Home sections arrived (see [`home_applied`]).
    pub fn on_home_sections(&mut self, sections: Vec<HomeSection>)
        requires
            flat_cards(spec_project(old(self).provider_id@, tracks_view(old(self).recent@), sections_view(sections@))).len()
                <= usize::MAX,
        ensures
            home_applied(*old(self), sections@, *final(self)),
    {
        self.finish_task();
        self.home_error = None;
        let was_empty = self.home.len() == 0;
        let previous = self.selected_home_key();
        self.home = sections;
        if self.section == Section::Inicio {
            let view = self.home_view();
            let count = view.len();
            let found = match &previous {
                Some(k) => view.flat_index_of(k),
                None => None,
            };
            proof {
                match previous {
                    Some(k) => lemma_key_position(flat_cards(view@), k@, match found { Some(i) => Some(i as int), None => None }),
                    None => {},
                }
            }
            self.selected = keep_selection(found, was_empty, self.selected, count);
        }
    }

    /// Loading recommendations failed for a reason other than an expired
    /// session: the cached shelves stay and the error shows.
    pub fn on_home_failed(&mut self, message: String)
        ensures
            home_failed_applied(*old(self), message, *final(self)),
    {
        self.finish_task();
        self.home_error = Some(message);
        self.status = string_from("⚠ Falha ao carregar recomendações — R recarrega.");
    }

    /// The account name arrived; a name already shown is kept.
    pub fn on_account_name(&mut self, name: Option<String>)
        ensures
            account_name_applied(*old(self), name, *final(self)),
    {
        self.finish_task();
        match name {
            Some(n) => {
                if self.account_name.is_none() {
                    self.account_name = Some(n);
                }
            },
            None => {},
        }
    }

    /// The session expired: the account data goes and the user is told how
    /// to sign in again.
    pub fn on_session_expired(&mut self)
        ensures
            session_expired_applied(*old(self), *final(self)),
    {
        self.finish_task();
        self.authentication = AuthState::Expired;
        self.library = Vec::new();
        self.account_name = None;
        self.status = string_from("Session expired. Press g to sign in again from your browser (music.youtube.com must be signed in there).");
    }

    /// The tracks of a playlist, album or artist arrived: they replace the
    /// mixed search results on the Search screen.
    pub fn on_playlist_tracks(&mut self, title: String, tracks: Vec<Track>)
        ensures
            playlist_tracks_applied(*old(self), title, tracks, *final(self)),
    {
        self.finish_task();
        let n = tracks.len();
        self.songs = tracks;
        self.songs_title = title;
        self.search_mixed = false;
        self.set_section(Section::Buscar);
        self.sidebar_index = 1;
        self.selected = Some(0);
        let mut status = string_from("");
        push_count(&mut status, n);
        push_str(&mut status, " faixas carregadas.");
        proof {
            reveal_strlit("");
            assert(status@ =~= decimal(n as nat) + " faixas carregadas."@);
        }
        self.status = status;
    }

    /// Lyrics arrived for the track `video_id`; ignored unless it still
    /// plays.
    pub fn on_lyrics(&mut self, video_id: &String, lyrics: Option<Lyrics>)
        ensures
            lyrics_applied(*old(self), video_id@, lyrics, *final(self)),
    {
        if self.is_current_track(video_id.as_str()) {
            self.lyrics = match lyrics {
                Some(Lyrics::Synced(lines)) => LyricsState::Synced { lines, active: None },
                Some(Lyrics::Plain(text)) => LyricsState::Plain(text),
                None => LyricsState::NotAvailable,
            };
        }
    }

    /// The cover of the track `video_id` arrived; it is shown only while
    /// that track plays.
    pub fn on_artwork_bytes(&self, video_id: &String, bytes: Vec<u8>) -> (r: Option<Effect>)
        ensures
            artwork_applied(*self, video_id@, bytes, r),
    {
        if self.is_current_track(video_id.as_str()) {
            Some(Effect::ShowArtwork { bytes })
        } else {
            None
        }
    }

    /// The audio of the track `video_id` is ready; it plays only while that
    /// track is still the current one.
    pub fn on_audio_ready(&mut self, video_id: &String, path: String) -> (r: Option<Effect>)
        ensures
            audio_ready_applied(*old(self), video_id@, path, *final(self), r),
    {
        let label = match &self.current {
            Some(t) => if str_eq(t.video_id.as_str(), video_id.as_str()) {
                let mut s = string_from("▶ Tocando: ");
                push_str(&mut s, t.title.as_str());
                push_str(&mut s, " — ");
                push_str(&mut s, t.artist.as_str());
                Some(s)
            } else {
                None
            },
            None => None,
        };
        match label {
            Some(s) => {
                self.loading_audio = false;
                self.status = s;
                Some(Effect::PlayFile { path })
            },
            None => None,
        }
    }

    /// A background task failed: the spinner counts it as done and the
    /// error shows.
    pub fn on_error(&mut self, message: &String)
        ensures
            error_applied(*old(self), message@, *final(self)),
    {
        self.loading_audio = false;
        self.finish_task();
        let mut status = string_from("⚠ ");
        push_str(&mut status, message.as_str());
        self.status = status;
    }

    /// A reply bound to session generation `generation`: handed on when it
    /// belongs to the current session, otherwise only counted as finished.
    pub fn for_session(&mut self, generation: u64, msg: Msg) -> (r: Option<Effect>)
        ensures
            for_session_applied(*old(self), generation, msg, *final(self), r),
    {
        if generation == self.session_generation {
            Some(Effect::Requeue(msg))
        } else {
            self.finish_task();
            None
        }
    }

    /// The radio asked for at the end of the queue arrived (see
    /// [`radio_applied`]).
    #[verifier::spinoff_prover]
    pub fn on_radio_tracks(&mut self, tracks: Vec<Track>) -> (r: Option<Effect>)
        requires
            old(self).wf(),
            old(self).queue@.len() + tracks@.len() <= usize::MAX,
        ensures
            final(self).wf(),
            radio_applied(*old(self), tracks@, *final(self), r),
    {
        if tracks.len() == 0 {
            self.finish_queue();
            return Some(Effect::StopPlayer);
        }
        self.queue_radio(tracks)
    }

    /// Appends the non-empty radio `tracks` and plays the first of them.
    #[verifier::spinoff_prover]
    fn queue_radio(&mut self, tracks: Vec<Track>) -> (r: Option<Effect>)
        requires
            old(self).wf(),
            tracks@.len() > 0,
            old(self).queue@.len() + tracks@.len() <= usize::MAX,
        ensures
            final(self).wf(),
            radio_applied(*old(self), tracks@, *final(self), r),
    {
        let start = self.queue.len();
        let mut more = tracks;
        self.queue.append(&mut more);
        self.queue_index = Some(start);
        let ghost mid = *self;
        let r = self.start_current();
        proof {
            lemma_started_queue(mid, mid.spec_played(), start as int, *self);
        }
        r
    }

    /// Similar tracks of `seed` arrived (see [`related_applied`]).
    #[verifier::spinoff_prover]
    pub fn on_related_tracks(&mut self, seed: &String, tracks: Vec<Track>) -> (r: Option<Effect>)
        requires
            old(self).wf(),
            old(self).queue@.len() + tracks@.len() <= usize::MAX,
        ensures
            final(self).wf(),
            related_applied(*old(self), seed@, tracks@, *final(self), r),
    {
        let ghost ts = tracks@;
        let added = self.append_related(seed.as_str(), tracks);
        if added == 0 {
            return None;
        }
        let mut status = string_from("📻 +");
        push_count(&mut status, added);
        push_str(&mut status, " músicas semelhantes na fila.");
        self.status = status;
        match self.next_index {
            Some(n) => Some(Effect::Prefetch { index: n }),
            None => None,
        }
    }

    /// Applies the outcome `msg` of background work and returns the
    /// follow-up work.
    pub fn apply(&mut self, msg: Msg) -> (r: Vec<Effect>)
        requires
            old(self).wf(),
            msg matches Msg::HomeSections(sections) ==> flat_cards(spec_project(
                old(self).provider_id@,
                tracks_view(old(self).recent@),
                sections_view(sections@),
            )).len() <= usize::MAX,
            msg matches Msg::RadioTracks(tracks) ==> old(self).queue@.len() + tracks@.len() <= usize::MAX,
            msg matches Msg::RelatedTracks { tracks, .. } ==> old(self).queue@.len() + tracks@.len() <= usize::MAX,
        ensures
            final(self).wf(),
            applied(*old(self), msg, *final(self), r@),
    {
        let ghost m0 = msg;
        let ghost before = *self;
        let mut effects: Vec<Effect> = Vec::new();
        let ghost mut e0: Option<Effect> = None;
        match msg {
            Msg::SearchResults(res) => self.on_search_results(res),
            Msg::LibraryPlaylists(pls) => self.on_library_playlists(pls),
            Msg::LibraryPlaylistsForSession { session_generation, playlists } => {
                let x = self.for_session(session_generation, Msg::LibraryPlaylists(playlists));
                proof { e0 = x; }
                push_opt(&mut effects, x);
            },
            Msg::HomeSections(sections) => self.on_home_sections(sections),
            Msg::HomeSectionsForSession { session_generation, sections } => {
                let x = self.for_session(session_generation, Msg::HomeSections(sections));
                proof { e0 = x; }
                push_opt(&mut effects, x);
            },
            Msg::HomeFailed(message) => self.on_home_failed(message),
            Msg::HomeFailedForSession { session_generation, message } => {
                let x = self.for_session(session_generation, Msg::HomeFailed(message));
                proof { e0 = x; }
                push_opt(&mut effects, x);
            },
            Msg::RadioTracks(tracks) => {
                let x = self.on_radio_tracks(tracks);
                proof { e0 = x; }
                push_opt(&mut effects, x);
            },
            Msg::AccountName(name) => self.on_account_name(name),
            Msg::AccountNameForSession { session_generation, name } => {
                let x = self.for_session(session_generation, Msg::AccountName(name));
                proof { e0 = x; }
                push_opt(&mut effects, x);
            },
            Msg::PlaylistTracks { title, tracks } => self.on_playlist_tracks(title, tracks),
            Msg::Lyrics { video_id, lyrics } => self.on_lyrics(&video_id, lyrics),
            Msg::ArtworkBytes { video_id, bytes } => {
                let x = self.on_artwork_bytes(&video_id, bytes);
                proof { e0 = x; }
                push_opt(&mut effects, x);
            },
            Msg::AudioReady { video_id, path } => {
                let x = self.on_audio_ready(&video_id, path);
                proof { e0 = x; }
                push_opt(&mut effects, x);
            },
            Msg::Status(text) => {
                self.status = text;
            },
            Msg::Error(message) => self.on_error(&message),
            Msg::SessionExpired => self.on_session_expired(),
            Msg::SessionExpiredForSession { session_generation } => {
                let x = self.for_session(session_generation, Msg::SessionExpired);
                proof { e0 = x; }
                push_opt(&mut effects, x);
            },
            Msg::SignInPrepared { operation_id, preview } => {
                let x = self.handle_sign_in_prepared(operation_id, preview);
                proof { e0 = x; }
                push_opt(&mut effects, x);
            },
            Msg::SignedIn { operation_id, preview_id, method, credentials_path, account_name } => {
                effects = self.handle_signed_in(operation_id, preview_id, &method, credentials_path, account_name);
            },
            Msg::SignInFailed { operation_id, message, preview_id } => {
                let x = self.handle_sign_in_failed(operation_id, &message, preview_id);
                proof { e0 = x; }
                push_opt(&mut effects, x);
            },
            Msg::RelatedTracks { seed, tracks } => {
                let x = self.on_related_tracks(&seed, tracks);
                proof { e0 = x; }
                push_opt(&mut effects, x);
            },
        }
        proof {
            if !(m0 is SignedIn) {
                assert(effects@ =~= some_effect(e0));
            }
            assert(applied_with(before, m0, *self, effects@, e0));
        }
        effects
    }
}

/// The effects of an optional effect.
pub open spec fn some_effect(e: Option<Effect>) -> Seq<Effect> {
    match e {
        Some(x) => seq![x],
        None => Seq::empty(),
    }
}

/// Pushes `e` onto the empty list `effects`, when there is one.
fn push_opt(effects: &mut Vec<Effect>, e: Option<Effect>)
    requires
        old(effects)@.len() == 0,
    ensures
        final(effects)@ == some_effect(e),
{
    match e {
        Some(x) => effects.push(x),
        None => {},
    }
    assert(effects@ =~= some_effect(e));
}

/// Whether `after` and `r` are what applying `msg` to `before` gives.
pub open spec fn applied(before: App, msg: Msg, after: App, r: Seq<Effect>) -> bool {
    exists|e: Option<Effect>| #[trigger] applied_with(before, msg, after, r, e)
}

/// Whether `after` and `r` are what applying `msg` to `before` gives, with
/// `e` the single follow-up effect (every reply but a completed sign-in
/// has at most one).
pub open spec fn applied_with(before: App, msg: Msg, after: App, r: Seq<Effect>, e: Option<Effect>) -> bool {
    {
        &&& r == some_effect(e) || msg is SignedIn
        &&& match msg {
            Msg::SearchResults(res) => e is None && search_applied(before, res, after),
            Msg::LibraryPlaylists(pls) => e is None && library_applied(before, pls@, after),
            Msg::LibraryPlaylistsForSession { session_generation, playlists } =>
                for_session_applied(before, session_generation, Msg::LibraryPlaylists(playlists), after, e),
            Msg::HomeSections(sections) => e is None && home_applied(before, sections@, after),
            Msg::HomeSectionsForSession { session_generation, sections } =>
                for_session_applied(before, session_generation, Msg::HomeSections(sections), after, e),
            Msg::HomeFailed(message) => e is None && home_failed_applied(before, message, after),
            Msg::HomeFailedForSession { session_generation, message } =>
                for_session_applied(before, session_generation, Msg::HomeFailed(message), after, e),
            Msg::RadioTracks(tracks) => radio_applied(before, tracks@, after, e),
            Msg::AccountName(name) => e is None && account_name_applied(before, name, after),
            Msg::AccountNameForSession { session_generation, name } =>
                for_session_applied(before, session_generation, Msg::AccountName(name), after, e),
            Msg::PlaylistTracks { title, tracks } => e is None && playlist_tracks_applied(before, title, tracks, after),
            Msg::Lyrics { video_id, lyrics } => e is None && lyrics_applied(before, video_id@, lyrics, after),
            Msg::ArtworkBytes { video_id, bytes } => after == before && artwork_applied(before, video_id@, bytes, e),
            Msg::AudioReady { video_id, path } => audio_ready_applied(before, video_id@, path, after, e),
            Msg::Status(text) => e is None && after == (App { status: text, ..before }),
            Msg::Error(message) => e is None && error_applied(before, message@, after),
            Msg::SessionExpired => e is None && session_expired_applied(before, after),
            Msg::SessionExpiredForSession { session_generation } =>
                for_session_applied(before, session_generation, Msg::SessionExpired, after, e),
            Msg::SignInPrepared { operation_id, preview } =>
                crate::app::authentication::sign_in_prepared_applied(before, operation_id, preview, after, e),
            Msg::SignedIn { operation_id, preview_id, method, credentials_path, account_name } =>
                crate::app::authentication::signed_in_applied(
                    before, operation_id, preview_id, method@, credentials_path, account_name, after, r),
            Msg::SignInFailed { operation_id, message, preview_id } =>
                crate::app::authentication::sign_in_failed_applied(before, operation_id, message@, preview_id, after, e),
            Msg::RelatedTracks { seed, tracks } => related_applied(before, seed@, tracks@, after, e),
        }
    }
}

/// The message a failed provider call in `context` sends back: an expired
/// session has its own message, any other error is reported with the
/// context in front.
pub fn client_error_message(context: &str, error: ProviderError) -> (r: Msg)
    ensures
        match error {
            ProviderError::SessionExpired => r is SessionExpired,
            ProviderError::Message(m) => r matches Msg::Error(text) && text@ == context@ + ": "@ + m@,
        },
{
    match error {
        ProviderError::SessionExpired => Msg::SessionExpired,
        other => {
            let mut text = string_from(context);
            push_str(&mut text, ": ");
            let d = other.describe();
            push_str(&mut text, d.as_str());
            Msg::Error(text)
        },
    }
}

} // verus!
