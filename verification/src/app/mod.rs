//! The application state and the decisions taken on it.
//!
//! [`App`] holds, as plain values, everything the logic reads: the lists on
//! screen, the playback queue, the authentication workflow, preferences and
//! presentation state. Work that leaves the process (network, audio device,
//! disk) is never done here: a method that needs it returns an [`Effect`]
//! describing it, and the event loop around the library performs it and
//! hands the outcome back as a [`Msg`].

use vstd::prelude::*;
use crate::config::{AnimationSpeed, ArtworkMode, HomeDensity, VisualizerStyle};
use crate::lyrics::LyricsState;
use crate::models::{Artist, HomeSection, Lyrics, Playlist, SearchResults, Track};
use crate::provider::{AuthState, Capabilities, SignInPreview};
use crate::text::string_from;
use crate::ui::state::UiState;

pub mod animation;
pub mod authentication;
pub mod home;
pub mod messages;
pub mod navigation;
pub mod playback;
pub mod preferences;
pub mod queue;
pub mod search;
pub mod startup;
pub mod tasks;

verus! {

/// Sections of the navigation column (they also pick the main panel).
#[derive(Debug, Clone, Copy, PartialEq, Eq, Structural)]
pub enum Section {
    Inicio,
    Buscar,
    Biblioteca,
    Playlists,
    Artistas,
    Fila,
    Letra,
    Ajuda,
}

/// Number of sections.
pub const SECTION_COUNT: usize = 8;

/// The section at sidebar position `i` (positions past the end read as the
/// first section).
pub open spec fn section_at(i: int) -> Section {
    if i == 1 {
        Section::Buscar
    } else if i == 2 {
        Section::Biblioteca
    } else if i == 3 {
        Section::Playlists
    } else if i == 4 {
        Section::Artistas
    } else if i == 5 {
        Section::Fila
    } else if i == 6 {
        Section::Letra
    } else if i == 7 {
        Section::Ajuda
    } else {
        Section::Inicio
    }
}

/// The sidebar position of a section.
pub open spec fn section_index(s: Section) -> int {
    match s {
        Section::Inicio => 0,
        Section::Buscar => 1,
        Section::Biblioteca => 2,
        Section::Playlists => 3,
        Section::Artistas => 4,
        Section::Fila => 5,
        Section::Letra => 6,
        Section::Ajuda => 7,
    }
}

impl Section {
    /// The sections in sidebar order.
    pub fn all() -> (r: [Section; 8])
        ensures
            forall|i: int| 0 <= i < 8 ==> r@[i] == section_at(i),
    {
        [
            Section::Inicio,
            Section::Buscar,
            Section::Biblioteca,
            Section::Playlists,
            Section::Artistas,
            Section::Fila,
            Section::Letra,
            Section::Ajuda,
        ]
    }

    /// The section at sidebar position `i`, if there is one.
    pub fn from_index(i: usize) -> (r: Option<Section>)
        ensures
            i < SECTION_COUNT ==> r == Some(section_at(i as int)),
            i >= SECTION_COUNT ==> r is None,
    {
        match i {
            0 => Some(Section::Inicio),
            1 => Some(Section::Buscar),
            2 => Some(Section::Biblioteca),
            3 => Some(Section::Playlists),
            4 => Some(Section::Artistas),
            5 => Some(Section::Fila),
            6 => Some(Section::Letra),
            7 => Some(Section::Ajuda),
            _ => None,
        }
    }

    /// Label shown in the navigation column and the narrow header.
    pub fn label(&self) -> (r: &'static str)
        ensures
            r@ == match *self {
                Section::Inicio => "Home"@,
                Section::Buscar => "Search"@,
                Section::Biblioteca => "Library"@,
                Section::Playlists => "Playlists"@,
                Section::Artistas => "Artists"@,
                Section::Fila => "Queue"@,
                Section::Letra => "Lyrics"@,
                Section::Ajuda => "Help"@,
            },
    {
        match self {
            Section::Inicio => "Home",
            Section::Buscar => "Search",
            Section::Biblioteca => "Library",
            Section::Playlists => "Playlists",
            Section::Artistas => "Artists",
            Section::Fila => "Queue",
            Section::Letra => "Lyrics",
            Section::Ajuda => "Help",
        }
    }

    /// Single-column glyph shown next to the label.
    pub fn icon(&self) -> (r: &'static str)
        ensures
            r@ == match *self {
                Section::Inicio => "⌂"@,
                Section::Buscar => "⌕"@,
                Section::Biblioteca => "♪"@,
                Section::Playlists => "♫"@,
                Section::Artistas => "◆"@,
                Section::Fila => "≡"@,
                Section::Letra => "¶"@,
                Section::Ajuda => "?"@,
            },
    {
        match self {
            Section::Inicio => "⌂",
            Section::Buscar => "⌕",
            Section::Biblioteca => "♪",
            Section::Playlists => "♫",
            Section::Artistas => "◆",
            Section::Fila => "≡",
            Section::Letra => "¶",
            Section::Ajuda => "?",
        }
    }

    /// Position of this section in the sidebar.
    pub fn index(&self) -> (r: usize)
        ensures
            r == section_index(*self),
            section_at(r as int) == *self,
    {
        match self {
            Section::Inicio => 0,
            Section::Buscar => 1,
            Section::Biblioteca => 2,
            Section::Playlists => 3,
            Section::Artistas => 4,
            Section::Fila => 5,
            Section::Letra => 6,
            Section::Ajuda => 7,
        }
    }
}

/// Where the keyboard focus is.
#[derive(Debug, Clone, Copy, PartialEq, Eq, Structural)]
pub enum Focus {
    Sidebar,
    Main,
}

/// Repeat mode of the queue.
#[derive(Debug, Clone, Copy, PartialEq, Eq, Structural)]
pub enum RepeatMode {
    Off,
    All,
    One,
}

impl RepeatMode {
    /// The mode after `self` in the cycle Off → All → One → Off.
    pub open spec fn spec_next(self) -> RepeatMode {
        match self {
            RepeatMode::Off => RepeatMode::All,
            RepeatMode::All => RepeatMode::One,
            RepeatMode::One => RepeatMode::Off,
        }
    }

    /// Cycles Off → All → One → Off.
    pub fn next(self) -> (r: RepeatMode)
        ensures
            r == self.spec_next(),
    {
        match self {
            RepeatMode::Off => RepeatMode::All,
            RepeatMode::All => RepeatMode::One,
            RepeatMode::One => RepeatMode::Off,
        }
    }

    /// Short label for display.
    pub open spec fn spec_label(self) -> Seq<char> {
        match self {
            RepeatMode::Off => "off"@,
            RepeatMode::All => "todos"@,
            RepeatMode::One => "1"@,
        }
    }

    /// Short label for display.
    pub fn label(self) -> (r: &'static str)
        ensures
            r@ == self.spec_label(),
    {
        match self {
            RepeatMode::Off => "off",
            RepeatMode::All => "todos",
            RepeatMode::One => "1",
        }
    }

    /// The string under which a mode is stored.
    pub open spec fn spec_as_config(self) -> Seq<char> {
        match self {
            RepeatMode::Off => "off"@,
            RepeatMode::All => "all"@,
            RepeatMode::One => "one"@,
        }
    }

    /// The value stored in the configuration.
    pub fn as_config(self) -> (r: &'static str)
        ensures
            r@ == self.spec_as_config(),
    {
        match self {
            RepeatMode::Off => "off",
            RepeatMode::All => "all",
            RepeatMode::One => "one",
        }
    }

    /// The mode a stored string selects; unknown strings select `Off`.
    pub open spec fn spec_from_config(s: Seq<char>) -> RepeatMode {
        if s == "all"@ {
            RepeatMode::All
        } else if s == "one"@ {
            RepeatMode::One
        } else {
            RepeatMode::Off
        }
    }

    /// Reads a stored value; unknown strings select `Off`.
    pub fn from_config(s: &str) -> (r: RepeatMode)
        ensures
            r == RepeatMode::spec_from_config(s@),
    {
        if crate::text::str_eq(s, "all") {
            RepeatMode::All
        } else if crate::text::str_eq(s, "one") {
            RepeatMode::One
        } else {
            RepeatMode::Off
        }
    }
}

/// Cycling the repeat mode three times comes back to the same mode.
pub proof fn lemma_repeat_cycle_period(m: RepeatMode)
    ensures
        m.spec_next().spec_next().spec_next() == m,
        m.spec_next() != m,
{
}

/// Reading back a stored repeat mode gives the same mode.
pub proof fn lemma_repeat_mode_roundtrip(m: RepeatMode)
    ensures
        RepeatMode::spec_from_config(m.spec_as_config()) == m,
{
    reveal_strlit("off");
    reveal_strlit("all");
    reveal_strlit("one");
    assert("off"@[1] != "all"@[1]);
    assert("off"@[1] != "one"@[1]);
    assert("all"@[0] != "one"@[0]);
}

/// One selectable row of the mixed search results, resolved from its flat
/// index. Groups are shown in the order songs, artists, albums, playlists.
#[derive(Debug, Clone)]
pub enum SearchHit {
    /// Index into the songs.
    Song(usize),
    Artist(Artist),
    Album(Playlist),
    Playlist(Playlist),
}

/// Phase of the two-phase sign-in.
#[derive(Debug, Clone)]
pub enum AuthenticationFlow {
    Idle,
    Preparing { operation_id: u64 },
    AwaitingConfirmation { operation_id: u64, preview: SignInPreview, selected: usize },
    Activating { operation_id: u64, preview_id: u64 },
}

/// Outcomes of background work, handed back to the application.
#[derive(Debug)]
#[allow(inconsistent_fields)]
pub enum Msg {
    SearchResults(SearchResults),
    LibraryPlaylists(Vec<Playlist>),
    LibraryPlaylistsForSession { session_generation: u64, playlists: Vec<Playlist> },
    HomeSections(Vec<HomeSection>),
    HomeSectionsForSession { session_generation: u64, sections: Vec<HomeSection> },
    /// Loading recommendations failed for a reason other than an expired
    /// session; cached shelves stay on screen.
    HomeFailed(String),
    HomeFailedForSession { session_generation: u64, message: String },
    /// Radio to continue with after the queue ran out.
    RadioTracks(Vec<Track>),
    AccountName(Option<String>),
    AccountNameForSession { session_generation: u64, name: Option<String> },
    PlaylistTracks { title: String, tracks: Vec<Track> },
    /// Lyrics of the track identified by `video_id`.
    Lyrics { video_id: String, lyrics: Option<Lyrics> },
    /// Cover bytes of the track identified by `video_id`.
    ArtworkBytes { video_id: String, bytes: Vec<u8> },
    /// Downloaded audio of the track identified by `video_id`.
    AudioReady { video_id: String, path: String },
    Status(String),
    Error(String),
    /// The cookies are present but the session is no longer valid.
    SessionExpired,
    SessionExpiredForSession { session_generation: u64 },
    SignInPrepared { operation_id: u64, preview: SignInPreview },
    SignedIn {
        operation_id: u64,
        preview_id: u64,
        method: String,
        credentials_path: Option<String>,
        account_name: String,
    },
    SignInFailed { operation_id: u64, message: String, preview_id: Option<u64> },
    /// Similar tracks to append behind the track `seed`.
    RelatedTracks { seed: String, tracks: Vec<Track> },
}

/// A command from the desktop's media keys: the same paths as the
/// keyboard shortcuts.
#[derive(Debug, Clone, Copy, PartialEq, Eq)]
pub enum MediaCommand {
    Play,
    Pause,
    Toggle,
    Next,
    Previous,
    Stop,
    SeekForward,
    SeekBackward,
    /// Seek by `secs` seconds (at least one).
    SeekBy { forward: bool, secs: u64 },
    /// Seek to `ms` milliseconds into the track.
    SetPosition { ms: u64 },
    Quit,
    /// Commands a terminal program has no use for.
    Ignored,
}

/// Work outside the process that a decision asks for.
#[derive(Debug)]
pub enum Effect {
    /// Put a message back at the end of the message queue.
    Requeue(Msg),
    /// Resolve and play the audio of `track`; fetch its lyrics when
    /// `fetch_lyrics`, and its cover when it has one; pre-fetch the queue
    /// entry `prefetch`; write the history back to disk when `save_history`.
    Play { track: Track, fetch_lyrics: bool, prefetch: Option<usize>, save_history: bool },
    /// Silence the audio device and clear the visualizer.
    StopPlayer,
    /// Pause the audio device, or resume it.
    TogglePause,
    /// Raise the output volume one step.
    VolumeUp,
    /// Lower the output volume one step.
    VolumeDown,
    /// Move playback to `ms` milliseconds into the track.
    SeekTo { ms: u64 },
    /// Move playback `secs` seconds forward, or backward when not `forward`.
    SeekBy { forward: bool, secs: u64 },
    /// Play the downloaded file at `path`.
    PlayFile { path: String },
    /// Decode and show a cover.
    ShowArtwork { bytes: Vec<u8> },
    /// Fetch a radio around `seed`, to continue after the queue ends.
    Radio { seed: String },
    /// Fetch tracks similar to `seed`, to append behind it.
    Related { seed: String },
    /// Pre-fetch the audio of queue entry `index`.
    Prefetch { index: usize },
    /// Search the provider.
    Search { query: String },
    /// Load the tracks of a playlist or album; `title` labels the results.
    LoadCollection { browse_id: String, title: String },
    /// Load the top tracks of an artist; `title` labels the results.
    LoadArtist { browse_id: String, title: String },
    /// Load the Home recommendations for the session generation.
    LoadHome { session_generation: u64 },
    /// Load the library for the session generation.
    LoadLibrary { session_generation: u64 },
    /// Load the account name for the session generation.
    LoadAccount { session_generation: u64 },
    /// Rate a track at the provider.
    Rate { video_id: String, like: bool },
    /// Prepare a sign-in for the operation.
    PrepareSignIn { operation_id: u64 },
    /// Activate an account of a prepared sign-in.
    ActivateSignIn { operation_id: u64, preview_id: u64, account_index: u8 },
    /// Discard a prepared sign-in at the provider.
    CancelSignIn { preview_id: u64 },
    /// Persist the preferences.
    SaveConfig,
    /// Rebuild the cover for the new artwork mode.
    ApplyArtworkMode,
}

/// Most tracks kept in the local history shown on the Home screen.
pub const RECENT_CAP: usize = 8;

/// Most tries when drawing a shuffled index different from the current one.
pub const MAX_DRAWS: u32 = 64;

/// The complete application state.
pub struct App {
    pub running: bool,
    /// Stable identifier of the provider (keys of Home cards).
    pub provider_id: String,
    /// Name of the provider shown to the user.
    pub provider_name: String,
    /// What the provider supports.
    pub capabilities: Capabilities,
    pub focus: Focus,
    pub section: Section,
    pub sidebar_index: usize,
    /// Typing a search query.
    pub input_mode: bool,
    pub query: String,
    pub songs: Vec<Track>,
    pub songs_title: String,
    pub playlists: Vec<Playlist>,
    pub artists: Vec<Artist>,
    pub albums: Vec<Playlist>,
    /// The Search section shows the mixed results of the last search.
    pub search_mixed: bool,
    /// Playlists of the signed-in user.
    pub library: Vec<Playlist>,
    /// Recommendation shelves, as the provider groups them.
    pub home: Vec<HomeSection>,
    /// Recently played tracks, most recent first.
    pub recent: Vec<Track>,
    /// Whether the history is written back to disk.
    pub persist_recent: bool,
    /// Set when the last recommendations load failed.
    pub home_error: Option<String>,
    /// Ids of the tracks liked in this session.
    pub liked: Vec<String>,
    /// Continue with a radio when the queue ends.
    pub autoplay: bool,
    /// Seed of a radio to fetch once playback starts.
    pub pending_radio_seed: Option<String>,
    pub authentication: AuthState,
    pub authentication_flow: AuthenticationFlow,
    /// Token binding sign-in messages to the operation that started them.
    pub next_authentication_operation: u64,
    /// Bumped when a sign-in activation commits; account-scoped replies
    /// carry it so an old account cannot overwrite the new one.
    pub session_generation: u64,
    pub account_name: Option<String>,
    /// Credentials path of the yt-dlp cookies.
    pub cookies: Option<String>,
    /// Index of the active colour theme among the available ones, by name.
    pub theme_index: usize,
    pub theme_names: Vec<String>,
    /// Selected row of the main list.
    pub selected: Option<usize>,
    pub queue: Vec<Track>,
    pub queue_index: Option<usize>,
    pub current: Option<Track>,
    /// Precomputed next queue entry (prefetch and auto-advance).
    pub next_index: Option<usize>,
    pub shuffle: bool,
    pub repeat: RepeatMode,
    /// State of the xorshift generator behind shuffle.
    pub rng_state: u64,
    /// Ids already played in the current shuffle cycle.
    pub shuffle_played: Vec<String>,
    pub lyrics: LyricsState,
    /// A cover is on screen.
    pub has_artwork: bool,
    /// The terminal needs a full clear before the next draw.
    pub clear_screen: bool,
    pub status: String,
    /// An audio download is in flight.
    pub loading_audio: bool,
    /// Counted loading tasks in flight.
    pub busy_tasks: usize,
    pub spinner_frame: usize,
    /// Seconds between background refreshes of Home and Library.
    pub sync_interval_secs: u64,
    pub artwork_mode: ArtworkMode,
    pub home_density: HomeDensity,
    pub visualizer_style: VisualizerStyle,
    pub splash_enabled: bool,
    /// The audio device is paused.
    pub paused: bool,
    pub ui: UiState,
}

/// Whether no two of the strings read the same.
pub open spec fn distinct_strings(s: Seq<String>) -> bool {
    forall|i: int, j: int| 0 <= i < j < s.len() ==> #[trigger] s[i]@ != #[trigger] s[j]@
}

impl App {
    /// The Home screen as projected from the history and the provider's
    /// sections.
    pub open spec fn spec_home_view(&self) -> Seq<crate::home::HomeShelfView> {
        crate::home::spec_project(
            self.provider_id@,
            crate::models::tracks_view(self.recent@),
            crate::models::sections_view(self.home@),
        )
    }

    /// Number of Home cards.
    pub open spec fn spec_home_total(&self) -> int {
        crate::home::flat_cards(self.spec_home_view()).len() as int
    }

    /// Number of rows in the mixed search results.
    pub open spec fn spec_search_count(&self) -> int {
        (self.songs@.len() + self.artists@.len() + self.albums@.len() + self.playlists@.len()) as int
    }

    /// Whether every list count fits in a `usize`.
    pub open spec fn fits(&self) -> bool {
        &&& self.spec_home_total() <= usize::MAX
        &&& self.spec_search_count() <= usize::MAX
    }

    /// Number of rows in the main list of the open section.
    pub open spec fn spec_main_len(&self) -> int {
        match self.section {
            Section::Inicio => self.spec_home_total(),
            Section::Buscar => if self.search_mixed { self.spec_search_count() } else { self.songs@.len() as int },
            Section::Biblioteca => self.library@.len() as int,
            Section::Playlists => self.playlists@.len() as int,
            Section::Artistas => self.artists@.len() as int,
            Section::Fila => self.queue@.len() as int,
            _ => 0,
        }
    }

    /// Whether `r` is the application [`App::with_provider`] builds: every
    /// field at its fixed default, every list empty, the built-in themes,
    /// and fresh presentation state at normal speed with the splash on.
    pub open spec fn spec_built_with(
        provider_id: Seq<char>,
        provider_name: Seq<char>,
        capabilities: Capabilities,
        authenticated: bool,
        r: App,
    ) -> bool {
        &&& r == (App {
            running: true,
            provider_id: r.provider_id,
            provider_name: r.provider_name,
            capabilities,
            focus: Focus::Sidebar,
            section: Section::Inicio,
            sidebar_index: 0,
            input_mode: false,
            query: r.query,
            songs: r.songs,
            songs_title: r.songs_title,
            playlists: r.playlists,
            artists: r.artists,
            albums: r.albums,
            search_mixed: false,
            library: r.library,
            home: r.home,
            recent: r.recent,
            persist_recent: false,
            home_error: None,
            liked: r.liked,
            autoplay: true,
            pending_radio_seed: None,
            authentication: if authenticated { AuthState::Authenticated } else { AuthState::Anonymous },
            authentication_flow: AuthenticationFlow::Idle,
            next_authentication_operation: 1,
            session_generation: 0,
            account_name: None,
            cookies: None,
            theme_index: 0,
            theme_names: r.theme_names,
            selected: Some(0),
            queue: r.queue,
            queue_index: None,
            current: None,
            next_index: None,
            shuffle: false,
            repeat: RepeatMode::Off,
            rng_state: 0x9E3779B97F4A7C15,
            shuffle_played: r.shuffle_played,
            lyrics: LyricsState::Pending,
            has_artwork: false,
            clear_screen: false,
            status: r.status,
            loading_audio: false,
            busy_tasks: 0,
            spinner_frame: 0,
            sync_interval_secs: 300,
            artwork_mode: ArtworkMode::Auto,
            home_density: HomeDensity::Comfortable,
            visualizer_style: VisualizerStyle::Gradient,
            splash_enabled: true,
            paused: false,
            ui: r.ui,
        })
        &&& r.provider_id@ == provider_id
        &&& r.provider_name@ == provider_name
        &&& r.query@.len() == 0
        &&& r.songs@.len() == 0
        &&& r.songs_title@ == "Search results"@
        &&& r.playlists@.len() == 0
        &&& r.artists@.len() == 0
        &&& r.albums@.len() == 0
        &&& r.library@.len() == 0
        &&& r.home@.len() == 0
        &&& r.recent@.len() == 0
        &&& r.liked@.len() == 0
        &&& r.queue@.len() == 0
        &&& r.shuffle_played@.len() == 0
        &&& r.theme_names@.map_values(|n: String| n@) == crate::ui::theme::spec_builtin_names()
        &&& r.status@ == "Ready."@
        &&& crate::app::startup::fresh_ui(r.ui, AnimationSpeed::Normal, false, true, 0)
    }

    /// Whether the indices into the queue and the theme list are in range,
    /// and the liked tracks and the played set of the shuffle cycle hold
    /// each identifier at most once.
    pub open spec fn wf(&self) -> bool {
        &&& self.queue_index matches Some(i) ==> i < self.queue@.len()
        &&& self.next_index matches Some(i) ==> i < self.queue@.len()
        &&& self.theme_index < self.theme_names@.len()
        &&& distinct_strings(self.liked@)
        &&& distinct_strings(self.shuffle_played@)
    }

    /// An application around a provider, with fixed defaults and empty
    /// lists, that reads no configuration and never writes its history
    /// (see [`App::spec_built_with`]).
    pub fn with_provider(provider_id: &str, provider_name: &str, capabilities: Capabilities, authenticated: bool) -> (r: App)
        ensures
            r.wf(),
            App::spec_built_with(provider_id@, provider_name@, capabilities, authenticated, r),
    {
        let theme_names = crate::ui::theme::builtin_names();
        proof {
            assert(theme_names@.map_values(|n: String| n@).len() == theme_names@.len());
            assert(crate::ui::theme::spec_builtin_names().len() == 11);
        }
        App {
            running: true,
            provider_id: string_from(provider_id),
            provider_name: string_from(provider_name),
            capabilities,
            focus: Focus::Sidebar,
            section: Section::Inicio,
            sidebar_index: 0,
            input_mode: false,
            query: String::new(),
            songs: Vec::new(),
            songs_title: string_from("Search results"),
            playlists: Vec::new(),
            artists: Vec::new(),
            albums: Vec::new(),
            search_mixed: false,
            library: Vec::new(),
            home: Vec::new(),
            recent: Vec::new(),
            persist_recent: false,
            home_error: None,
            liked: Vec::new(),
            autoplay: true,
            pending_radio_seed: None,
            authentication: if authenticated { AuthState::Authenticated } else { AuthState::Anonymous },
            authentication_flow: AuthenticationFlow::Idle,
            next_authentication_operation: 1,
            session_generation: 0,
            account_name: None,
            cookies: None,
            theme_index: 0,
            theme_names,
            selected: Some(0),
            queue: Vec::new(),
            queue_index: None,
            current: None,
            next_index: None,
            shuffle: false,
            repeat: RepeatMode::Off,
            rng_state: 0x9E3779B97F4A7C15,
            shuffle_played: Vec::new(),
            lyrics: LyricsState::Pending,
            has_artwork: false,
            clear_screen: false,
            status: string_from("Ready."),
            loading_audio: false,
            busy_tasks: 0,
            spinner_frame: 0,
            sync_interval_secs: 300,
            artwork_mode: ArtworkMode::Auto,
            home_density: HomeDensity::Comfortable,
            visualizer_style: VisualizerStyle::Gradient,
            splash_enabled: true,
            paused: false,
            ui: UiState::new(AnimationSpeed::Normal, false, true, 0),
        }
    }

    /// Whether a session is active.
    pub fn is_authenticated(&self) -> (r: bool)
        ensures
            r == (self.authentication == AuthState::Authenticated),
    {
        self.authentication.is_authenticated()
    }

    /// Consumes the pending full-clear flag.
    pub fn take_clear_screen(&mut self) -> (r: bool)
        ensures
            r == old(self).clear_screen,
            *final(self) == (App { clear_screen: false, ..*old(self) }),
    {
        let r = self.clear_screen;
        self.clear_screen = false;
        r
    }
}

} // verus!
