//! Provider-neutral data: every music service converts its replies into
//! these types before anything reaches the interface.

use vstd::prelude::*;
use crate::text::{copy_opt_string, copy_string, opt_view};

verus! {

/// A track.
#[derive(Debug, Clone, Default)]
pub struct Track {
    /// Identifier of the track at its provider.
    pub video_id: String,
    pub title: String,
    pub artist: String,
    pub album: String,
    /// Formatted duration, e.g. "4:27".
    pub duration: String,
    /// Duration in seconds (0 when unknown).
    pub duration_secs: u64,
    /// Cover URL.
    pub thumbnail: Option<String>,
}

/// The mathematical content of a [`Track`].
pub struct TrackView {
    pub video_id: Seq<char>,
    pub title: Seq<char>,
    pub artist: Seq<char>,
    pub album: Seq<char>,
    pub duration: Seq<char>,
    pub duration_secs: u64,
    pub thumbnail: Option<Seq<char>>,
}

impl View for Track {
    type V = TrackView;

    open spec fn view(&self) -> TrackView {
        TrackView {
            video_id: self.video_id@,
            title: self.title@,
            artist: self.artist@,
            album: self.album@,
            duration: self.duration@,
            duration_secs: self.duration_secs,
            thumbnail: opt_view(self.thumbnail),
        }
    }
}

impl Track {
    /// A copy of this track with the same content.
    pub fn duplicate(&self) -> (r: Track)
        ensures
            r@ == self@,
    {
        Track {
            video_id: copy_string(&self.video_id),
            title: copy_string(&self.title),
            artist: copy_string(&self.artist),
            album: copy_string(&self.album),
            duration: copy_string(&self.duration),
            duration_secs: self.duration_secs,
            thumbnail: copy_opt_string(&self.thumbnail),
        }
    }
}

/// Whether a collection is an album or a playlist.
#[derive(Debug, Clone, Copy, Default, PartialEq, Eq, Structural)]
pub enum CollectionKind {
    Album,
    #[default]
    Playlist,
}

/// A playlist or an album.
#[derive(Debug, Clone, Default)]
pub struct Playlist {
    /// Identifier used to fetch the content.
    pub browse_id: String,
    pub title: String,
    pub subtitle: String,
    pub thumbnail: Option<String>,
    pub kind: CollectionKind,
}

/// The mathematical content of a [`Playlist`].
pub struct PlaylistView {
    pub browse_id: Seq<char>,
    pub title: Seq<char>,
    pub subtitle: Seq<char>,
    pub thumbnail: Option<Seq<char>>,
    pub kind: CollectionKind,
}

impl View for Playlist {
    type V = PlaylistView;

    open spec fn view(&self) -> PlaylistView {
        PlaylistView {
            browse_id: self.browse_id@,
            title: self.title@,
            subtitle: self.subtitle@,
            thumbnail: opt_view(self.thumbnail),
            kind: self.kind,
        }
    }
}

impl Playlist {
    /// A copy of this collection with the same content.
    pub fn duplicate(&self) -> (r: Playlist)
        ensures
            r@ == self@,
    {
        Playlist {
            browse_id: copy_string(&self.browse_id),
            title: copy_string(&self.title),
            subtitle: copy_string(&self.subtitle),
            thumbnail: copy_opt_string(&self.thumbnail),
            kind: self.kind,
        }
    }
}

/// An artist returned by a search.
#[derive(Debug, Clone, Default)]
pub struct Artist {
    pub browse_id: String,
    pub name: String,
    pub subtitle: String,
    pub thumbnail: Option<String>,
}

/// The mathematical content of an [`Artist`].
pub struct ArtistView {
    pub browse_id: Seq<char>,
    pub name: Seq<char>,
    pub subtitle: Seq<char>,
    pub thumbnail: Option<Seq<char>>,
}

impl View for Artist {
    type V = ArtistView;

    open spec fn view(&self) -> ArtistView {
        ArtistView {
            browse_id: self.browse_id@,
            name: self.name@,
            subtitle: self.subtitle@,
            thumbnail: opt_view(self.thumbnail),
        }
    }
}

impl Artist {
    /// A copy of this artist with the same content.
    pub fn duplicate(&self) -> (r: Artist)
        ensures
            r@ == self@,
    {
        Artist {
            browse_id: copy_string(&self.browse_id),
            name: copy_string(&self.name),
            subtitle: copy_string(&self.subtitle),
            thumbnail: copy_opt_string(&self.thumbnail),
        }
    }
}

/// Aggregated result of a search.
#[derive(Debug, Clone, Default)]
pub struct SearchResults {
    pub songs: Vec<Track>,
    pub playlists: Vec<Playlist>,
    pub artists: Vec<Artist>,
    pub albums: Vec<Playlist>,
}

/// One timed line of lyrics.
#[derive(Debug, Clone, Default)]
pub struct LyricLine {
    pub text: String,
    pub start_ms: u64,
    pub end_ms: u64,
}

/// Lyrics of a track: timed lines when the provider has them, plain text
/// otherwise.
#[derive(Debug, Clone)]
pub enum Lyrics {
    Synced(Vec<LyricLine>),
    Plain(String),
}

/// A named shelf of recommendations, as the provider groups them.
#[derive(Debug, Clone, Default)]
pub struct HomeSection {
    pub title: String,
    pub items: Vec<Playlist>,
}

/// The mathematical content of a [`HomeSection`].
pub struct HomeSectionView {
    pub title: Seq<char>,
    pub items: Seq<PlaylistView>,
}

impl View for HomeSection {
    type V = HomeSectionView;

    open spec fn view(&self) -> HomeSectionView {
        HomeSectionView {
            title: self.title@,
            items: self.items@.map_values(|p: Playlist| p@),
        }
    }
}

/// The content of every track in a slice.
pub open spec fn tracks_view(ts: Seq<Track>) -> Seq<TrackView> {
    ts.map_values(|t: Track| t@)
}

/// The content of every collection in a slice.
pub open spec fn playlists_view(ps: Seq<Playlist>) -> Seq<PlaylistView> {
    ps.map_values(|p: Playlist| p@)
}

/// The content of every section in a slice.
pub open spec fn sections_view(ss: Seq<HomeSection>) -> Seq<HomeSectionView> {
    ss.map_values(|s: HomeSection| s@)
}

/// A copy of every track of a list, with the same content.
pub fn copy_tracks(v: &Vec<Track>) -> (r: Vec<Track>)
    ensures
        tracks_view(r@) == tracks_view(v@),
{
    let mut out: Vec<Track> = Vec::new();
    let mut i: usize = 0;
    while i < v.len()
        invariant
            i <= v@.len(),
            tracks_view(out@) == tracks_view(v@.take(i as int)),
        decreases v@.len() - i,
    {
        let ghost before = out@;
        out.push(v[i].duplicate());
        proof {
            assert(tracks_view(out@) =~= tracks_view(before).push(v@[i as int]@));
            assert(tracks_view(v@.take(i + 1)) =~= tracks_view(v@.take(i as int)).push(v@[i as int]@));
        }
        i = i + 1;
    }
    assert(v@.take(v@.len() as int) =~= v@);
    out
}

} // verus!
