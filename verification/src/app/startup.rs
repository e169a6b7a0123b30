//! The application as it starts: preferences read from the configuration,
//! the provider's view of the session, and the local history, turned into
//! the first state.

use vstd::prelude::*;
use crate::app::search::{trim, trim_ws};
use crate::app::{App, AuthenticationFlow, Focus, RECENT_CAP, RepeatMode, Section};
use crate::config::{AnimationSpeed, ArtworkMode, HomeDensity, VisualizerStyle};
use crate::lyrics::LyricsState;
use crate::models::Track;
use crate::provider::{AuthState, Capabilities};
use crate::text::{chars_of, chars_eq, lower_chars, lower_seq, push_str, string_from};
use crate::ui::state::UiState;

verus! {

/// Everything the first state is made from: the provider, what its
/// bootstrap found, the stored preferences, the history on disk, the
/// names of the available themes and a seed for the shuffle generator.
pub struct Startup {
    pub provider_id: String,
    pub provider_name: String,
    pub capabilities: Capabilities,
    pub authentication: AuthState,
    /// A cookie file the configuration names but that does not exist.
    pub missing_requested_path: Option<String>,
    pub cookies: Option<String>,
    pub shuffle: bool,
    pub repeat: String,
    pub theme: String,
    pub username: Option<String>,
    pub sync_interval_secs: u64,
    pub artwork_mode: String,
    pub home_density: String,
    pub visualizer: String,
    pub animation_speed: String,
    pub reduced_motion: bool,
    pub splash: bool,
    pub lyrics_offset_ms: i64,
    pub recent: Vec<Track>,
    pub theme_names: Vec<String>,
    pub seed: u64,
}

/// Shortest background-sync interval accepted, in seconds: a hand-edited
/// 0 would otherwise refetch in a hot loop.
pub const MIN_SYNC_SECS: u64 = 30;

/// The first theme at or after `i` whose name equals `name` ignoring ASCII
/// case, or 0 (the default theme) when none does.
pub open spec fn theme_from(names: Seq<Seq<char>>, name: Seq<char>, i: int) -> int
    decreases names.len() - i,
{
    if i < 0 || i >= names.len() {
        0
    } else if lower_seq(names[i]) == lower_seq(name) {
        i
    } else {
        theme_from(names, name, i + 1)
    }
}

/// The welcome line for a session state.
pub open spec fn welcome(auth: AuthState, missing: Option<Seq<char>>) -> Seq<char> {
    match auth {
        AuthState::Authenticated => "Signed in. Loading your library... Press / to search or ? for help."@,
        AuthState::InvalidCredentials => "Cookie file is invalid. Press g to sign in from your browser."@,
        AuthState::Anonymous => match missing {
            Some(path) => "Configured cookie file does not exist: "@ + path,
            None => "Welcome to ytmtui. Press / to search or ? for help."@,
        },
        AuthState::Expired => "Session expired. Press g to sign in again from your browser."@,
    }
}

/// The display name the configuration sets: a name of only white space
/// counts as none.
pub open spec fn custom_name(username: Option<String>) -> Option<String> {
    match username {
        Some(u) if trim_ws(u@).len() > 0 => Some(u),
        _ => None,
    }
}

/// The string views of a list of names.
pub open spec fn names_view(names: Seq<String>) -> Seq<Seq<char>> {
    names.map_values(|n: String| n@)
}

/// Whether `r` is the first state built from `s`.
pub open spec fn started_from(s: Startup, r: App) -> bool {
    &&& r == (App {
        running: true,
        provider_id: s.provider_id,
        provider_name: s.provider_name,
        capabilities: s.capabilities,
        focus: Focus::Sidebar,
        section: Section::Inicio,
        sidebar_index: 0,
        input_mode: false,
        query: r.query,
        songs: r.songs,
        songs_title: r.songs_title,
        playlists: r.playlists,
        artists: r.artists,
        albums: r.albums,
        search_mixed: false,
        library: r.library,
        home: r.home,
        recent: r.recent,
        persist_recent: true,
        home_error: None,
        liked: r.liked,
        autoplay: true,
        pending_radio_seed: None,
        authentication: s.authentication,
        authentication_flow: AuthenticationFlow::Idle,
        next_authentication_operation: 1,
        session_generation: 0,
        account_name: custom_name(s.username),
        cookies: s.cookies,
        theme_index: theme_from(names_view(s.theme_names@), s.theme@, 0) as usize,
        theme_names: s.theme_names,
        selected: Some(0),
        queue: r.queue,
        queue_index: None,
        current: None,
        next_index: None,
        shuffle: s.shuffle,
        repeat: RepeatMode::spec_from_config(s.repeat@),
        rng_state: s.seed | 1,
        shuffle_played: r.shuffle_played,
        lyrics: LyricsState::Pending,
        has_artwork: false,
        clear_screen: false,
        status: r.status,
        loading_audio: false,
        busy_tasks: 0,
        spinner_frame: 0,
        sync_interval_secs: if s.sync_interval_secs < MIN_SYNC_SECS { MIN_SYNC_SECS } else { s.sync_interval_secs },
        artwork_mode: ArtworkMode::spec_from_config(s.artwork_mode@),
        home_density: HomeDensity::spec_from_config(s.home_density@),
        visualizer_style: VisualizerStyle::spec_from_config(s.visualizer@),
        splash_enabled: s.splash,
        paused: false,
        ui: r.ui,
    })
    &&& r.recent@ == (if s.recent@.len() > RECENT_CAP { s.recent@.take(RECENT_CAP as int) } else { s.recent@ })
    &&& r.query@.len() == 0
    &&& r.songs@.len() == 0
    &&& r.songs_title@ == "Search results"@
    &&& r.playlists@.len() == 0
    &&& r.artists@.len() == 0
    &&& r.albums@.len() == 0
    &&& r.library@.len() == 0
    &&& r.home@.len() == 0
    &&& r.liked@.len() == 0
    &&& r.queue@.len() == 0
    &&& r.shuffle_played@.len() == 0
    &&& r.status@ == welcome(s.authentication, match s.missing_requested_path { Some(p) => Some(p@), None => None })
    &&& fresh_ui(r.ui, AnimationSpeed::spec_from_config(s.animation_speed@), s.reduced_motion, s.splash, s.lyrics_offset_ms)
}

/// Whether `ui` is fresh presentation state for these preferences: no
/// transition, browsing or scrolling yet, and the splash running only when
/// it is on and reduced motion is off.
pub open spec fn fresh_ui(ui: UiState, speed: AnimationSpeed, reduced_motion: bool, splash: bool, offset_ms: i64) -> bool {
    &&& ui.anim.speed == speed
    &&& ui.anim.reduced_motion == reduced_motion
    &&& ui.anim.animate_until is None
    &&& ui.anim.selection_changed_at is None
    &&& ui.anim.section_changed_at is None
    &&& ui.lyrics.cursor is None
    &&& ui.lyrics.suspended_until is None
    &&& ui.lyrics.offset_ms == offset_ms
    &&& ui.lyrics.scroll == 0
    &&& ui.help_scroll == 0
    &&& ui.home_columns == 1
    &&& ui.splash_running == (splash && !reduced_motion)
}

/// The theme named `name`, ignoring ASCII case (see [`theme_from`]).
pub fn theme_index(names: &Vec<String>, name: &str) -> (r: usize)
    ensures
        r == theme_from(names_view(names@), name@, 0),
        names@.len() > 0 ==> r < names@.len(),
{
    let wanted = lower_chars(&chars_of(name));
    let mut i: usize = 0;
    while i < names.len()
        invariant
            i <= names.len(),
            wanted@ == lower_seq(name@),
            theme_from(names_view(names@), name@, 0) == theme_from(names_view(names@), name@, i as int),
        decreases names.len() - i,
    {
        let candidate = lower_chars(&chars_of(names[i].as_str()));
        assert(names_view(names@)[i as int] == names@[i as int]@);
        if chars_eq(&candidate, &wanted) {
            return i;
        }
        i = i + 1;
    }
    0
}

fn custom_username(username: Option<String>) -> (r: Option<String>)
    ensures
        r == custom_name(username),
{
    match username {
        Some(u) => {
            let t = trim(&chars_of(u.as_str()));
            if t.len() > 0 {
                Some(u)
            } else {
                None
            }
        },
        None => None,
    }
}

fn welcome_line(auth: AuthState, missing: &Option<String>) -> (r: String)
    ensures
        r@ == welcome(auth, match *missing { Some(p) => Some(p@), None => None }),
{
    match auth {
        AuthState::Authenticated => string_from("Signed in. Loading your library... Press / to search or ? for help."),
        AuthState::InvalidCredentials => string_from("Cookie file is invalid. Press g to sign in from your browser."),
        AuthState::Anonymous => match missing {
            Some(path) => {
                let mut s = string_from("Configured cookie file does not exist: ");
                push_str(&mut s, path.as_str());
                s
            },
            None => string_from("Welcome to ytmtui. Press / to search or ? for help."),
        },
        AuthState::Expired => string_from("Session expired. Press g to sign in again from your browser."),
    }
}

/// A theme name saved from the list reads back as the same theme, as long
/// as no earlier theme has the same name ignoring ASCII case.
pub proof fn lemma_theme_name_reads_back(names: Seq<Seq<char>>, i: int)
    requires
        0 <= i < names.len(),
        forall|k: int| 0 <= k < i ==> lower_seq(#[trigger] names[k]) != lower_seq(names[i]),
    ensures
        theme_from(names, names[i], 0) == i,
{
    lemma_theme_scan(names, names[i], 0, i);
}

proof fn lemma_theme_scan(names: Seq<Seq<char>>, name: Seq<char>, j: int, i: int)
    requires
        0 <= j <= i < names.len(),
        lower_seq(names[i]) == lower_seq(name),
        forall|k: int| 0 <= k < i ==> lower_seq(#[trigger] names[k]) != lower_seq(name),
    ensures
        theme_from(names, name, j) == i,
    decreases i - j,
{
    if j < i {
        lemma_theme_scan(names, name, j + 1, i);
    }
}

impl App {
    /// The first state of the application (see [`started_from`]): nothing
    /// playing, the Home section open, the stored preferences applied and
    /// a welcome line that tells the session state, and the history cut to
    /// its newest [`RECENT_CAP`] entries.
    pub fn start(s: Startup) -> (r: App)
        requires
            s.theme_names@.len() > 0,
        ensures
            r.wf(),
            started_from(s, r),
    {
        let theme_index = theme_index(&s.theme_names, s.theme.as_str());
        let status = welcome_line(s.authentication, &s.missing_requested_path);
        let ui = UiState::new(
            AnimationSpeed::from_config(s.animation_speed.as_str()),
            s.reduced_motion,
            s.splash,
            s.lyrics_offset_ms,
        );
        let repeat = RepeatMode::from_config(s.repeat.as_str());
        let artwork_mode = ArtworkMode::from_config(s.artwork_mode.as_str());
        let home_density = HomeDensity::from_config(s.home_density.as_str());
        let visualizer_style = VisualizerStyle::from_config(s.visualizer.as_str());
        let account_name = custom_username(s.username);
        let mut recent = s.recent;
        recent.truncate(RECENT_CAP);
        assert(recent@ =~= (if s.recent@.len() > RECENT_CAP { s.recent@.take(RECENT_CAP as int) } else { s.recent@ }));
        let sync_interval_secs = if s.sync_interval_secs < MIN_SYNC_SECS { MIN_SYNC_SECS } else { s.sync_interval_secs };
        App {
            running: true,
            provider_id: s.provider_id,
            provider_name: s.provider_name,
            capabilities: s.capabilities,
            focus: Focus::Sidebar,
            section: Section::Inicio,
            sidebar_index: 0,
            input_mode: false,
            query: String::new(),
            songs: Vec::new(),
            songs_title: string_from("Search results"),
            playlists: Vec::new(),
            artists: Vec::new(),
            albums: Vec::new(),
            search_mixed: false,
            library: Vec::new(),
            home: Vec::new(),
            recent,
            persist_recent: true,
            home_error: None,
            liked: Vec::new(),
            autoplay: true,
            pending_radio_seed: None,
            authentication: s.authentication,
            authentication_flow: AuthenticationFlow::Idle,
            next_authentication_operation: 1,
            session_generation: 0,
            account_name,
            cookies: s.cookies,
            theme_index,
            theme_names: s.theme_names,
            selected: Some(0),
            queue: Vec::new(),
            queue_index: None,
            current: None,
            next_index: None,
            shuffle: s.shuffle,
            repeat,
            rng_state: s.seed | 1,
            shuffle_played: Vec::new(),
            lyrics: LyricsState::Pending,
            has_artwork: false,
            clear_screen: false,
            status,
            loading_audio: false,
            busy_tasks: 0,
            spinner_frame: 0,
            sync_interval_secs,
            artwork_mode,
            home_density,
            visualizer_style,
            splash_enabled: s.splash,
            paused: false,
            ui,
        }
    }
}

} // verus!
