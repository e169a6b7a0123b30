//! Keyboard and mouse-wheel handling: which action a key press asks for in
//! the current state, and what that action does to the application.
//!
//! The decision ([`key_action`]) reads the sign-in picker, the search input,
//! the open section and the focus; [`perform`] then runs the chosen action
//! through the same methods the rest of the program uses.

use vstd::prelude::*;
use crate::app::navigation::selected_or_first;
use crate::app::{App, Effect, Focus, Section};
use crate::home::{spec_first_in_shelf, HomeDirection};
use crate::lyrics::LyricsState;
use crate::text::{push_char, string_from};
use crate::ui::state::{LyricsView, UiState};

verus! {

/// The key of a key press, as the keyboard logic reads it.
#[derive(Debug, Clone, Copy, PartialEq, Eq, Structural)]
pub enum KeyCode {
    Char(char),
    Enter,
    Esc,
    Backspace,
    Tab,
    Left,
    Right,
    Up,
    Down,
    PageUp,
    PageDown,
    Home,
    End,
    Delete,
    /// Any key the program gives no meaning to.
    Other,
}

/// A key press: the key, and whether Control was held.
#[derive(Debug, Clone, Copy, PartialEq, Eq, Structural)]
pub struct KeyPress {
    pub code: KeyCode,
    pub ctrl: bool,
}

impl KeyPress {
    /// A press of `code` with no modifier.
    pub fn plain(code: KeyCode) -> (r: KeyPress)
        ensures
            r == (KeyPress { code, ctrl: false }),
    {
        KeyPress { code, ctrl: false }
    }
}

/// How many rows PageUp and PageDown move.
pub const PAGE_JUMP: isize = 10;

/// What a key press asks for.
#[derive(Debug, Clone, Copy, PartialEq, Eq, Structural)]
pub enum KeyAction {
    Nothing,
    SignInPrevious,
    SignInNext,
    SignInConfirm,
    SignInCancel,
    SubmitSearch,
    CancelSearch,
    EraseQueryChar,
    TypeQueryChar(char),
    Quit,
    StartSearch,
    OpenHelp,
    TogglePause,
    NextTrack,
    PreviousTrack,
    Stop,
    VolumeUp,
    VolumeDown,
    SeekBackward,
    SeekForward,
    ToggleShuffle,
    CycleRepeat,
    Reload,
    Enqueue,
    QueueRemove,
    QueueMove(isize),
    QueueClear,
    JumpToSection(usize),
    Like,
    CycleTheme,
    SignIn,
    ToggleFocus,
    FocusSidebar,
    FocusMain,
    MoveHome(HomeDirection),
    MoveSidebar(isize),
    MoveSelection(isize),
    PageSelection(isize),
    ScrollLyrics(isize),
    ScrollHelp(isize),
    SelectFirst,
    SelectLast,
    PlaySelected,
    OpenHome,
    OpenPlaylist,
    OpenLibraryPlaylist,
    OpenArtist,
}

/// While the account picker is open it takes every key.
pub open spec fn picker_action(key: KeyPress) -> KeyAction {
    match key.code {
        KeyCode::Up | KeyCode::Char('k') => KeyAction::SignInPrevious,
        KeyCode::Down | KeyCode::Char('j') => KeyAction::SignInNext,
        KeyCode::Enter => KeyAction::SignInConfirm,
        KeyCode::Esc => KeyAction::SignInCancel,
        _ => KeyAction::Nothing,
    }
}

/// While a query is being typed, keys edit it.
pub open spec fn typing_action(key: KeyPress) -> KeyAction {
    match key.code {
        KeyCode::Enter => KeyAction::SubmitSearch,
        KeyCode::Esc => KeyAction::CancelSearch,
        KeyCode::Backspace => KeyAction::EraseQueryChar,
        KeyCode::Char(c) => KeyAction::TypeQueryChar(c),
        _ => KeyAction::Nothing,
    }
}

/// Up/down in the focused component: the sidebar, the Home grid, the text
/// of the Lyrics and Help panels, or the list.
pub open spec fn navigate_action(app: App, delta: isize) -> KeyAction {
    match app.focus {
        Focus::Sidebar => KeyAction::MoveSidebar(delta),
        Focus::Main => match app.section {
            Section::Inicio => KeyAction::MoveHome(if delta < 0 { HomeDirection::Up } else { HomeDirection::Down }),
            Section::Letra => KeyAction::ScrollLyrics(delta),
            Section::Ajuda => KeyAction::ScrollHelp(delta),
            _ => KeyAction::MoveSelection(delta),
        },
    }
}

/// A page jump in the focused component (none in the sidebar).
pub open spec fn page_action(app: App, delta: isize) -> KeyAction {
    match app.focus {
        Focus::Sidebar => KeyAction::Nothing,
        Focus::Main => match app.section {
            Section::Letra => KeyAction::ScrollLyrics(delta),
            Section::Ajuda => KeyAction::ScrollHelp(delta),
            _ => KeyAction::PageSelection(delta),
        },
    }
}

/// Enter: confirming a section moves the focus to its panel; in a panel it
/// opens or plays the selection.
pub open spec fn activate_action(app: App) -> KeyAction {
    match app.focus {
        Focus::Sidebar => KeyAction::FocusMain,
        Focus::Main => match app.section {
            Section::Buscar | Section::Fila => KeyAction::PlaySelected,
            Section::Inicio => KeyAction::OpenHome,
            Section::Playlists => KeyAction::OpenPlaylist,
            Section::Biblioteca => KeyAction::OpenLibraryPlaylist,
            Section::Artistas => KeyAction::OpenArtist,
            _ => KeyAction::Nothing,
        },
    }
}

/// Whether the open Queue panel has the focus (the queue editing keys only
/// act there).
pub open spec fn in_queue_panel(app: App) -> bool {
    app.section == Section::Fila && app.focus == Focus::Main
}

/// Whether the open Home panel has the focus.
pub open spec fn in_home_panel(app: App) -> bool {
    app.section == Section::Inicio && app.focus == Focus::Main
}

/// The shortcuts outside the picker and the search input, in the order
/// they are tried.
pub open spec fn global_action(app: App, key: KeyPress) -> KeyAction {
    match key.code {
        KeyCode::Char(c) => char_action(app, c, key.ctrl),
        KeyCode::Delete => if in_queue_panel(app) { KeyAction::QueueRemove } else { KeyAction::Nothing },
        KeyCode::Tab => KeyAction::ToggleFocus,
        KeyCode::Left => left_action(app),
        KeyCode::Right => right_action(app),
        KeyCode::Down => navigate_action(app, 1),
        KeyCode::Up => navigate_action(app, -1isize),
        KeyCode::PageDown => page_action(app, PAGE_JUMP),
        KeyCode::PageUp => page_action(app, (-PAGE_JUMP) as isize),
        KeyCode::Home => if app.focus == Focus::Main { KeyAction::SelectFirst } else { KeyAction::Nothing },
        KeyCode::End => if app.focus == Focus::Main { KeyAction::SelectLast } else { KeyAction::Nothing },
        KeyCode::Enter => activate_action(app),
        _ => KeyAction::Nothing,
    }
}

/// Left: on the Home grid it moves one card left, or hands the focus back
/// to the sidebar from the first card of a shelf; elsewhere it focuses the
/// sidebar.
pub open spec fn left_action(app: App) -> KeyAction {
    if in_home_panel(app) {
        if spec_first_in_shelf(app.spec_home_view(), selected_or_first(app.selected)) {
            KeyAction::FocusSidebar
        } else {
            KeyAction::MoveHome(HomeDirection::Left)
        }
    } else {
        KeyAction::FocusSidebar
    }
}

/// Right: on the Home grid it moves one card right; elsewhere it focuses
/// the panel.
pub open spec fn right_action(app: App) -> KeyAction {
    if in_home_panel(app) {
        KeyAction::MoveHome(HomeDirection::Right)
    } else {
        KeyAction::FocusMain
    }
}

/// The shortcut of a character key.
pub open spec fn char_action(app: App, c: char, ctrl: bool) -> KeyAction {
    if c == 'q' {
        KeyAction::Quit
    } else if c == 'c' && ctrl {
        KeyAction::Quit
    } else if c == '/' {
        KeyAction::StartSearch
    } else if c == '?' {
        KeyAction::OpenHelp
    } else if c == ' ' {
        KeyAction::TogglePause
    } else if c == 'n' {
        KeyAction::NextTrack
    } else if c == 'p' {
        KeyAction::PreviousTrack
    } else if c == 's' {
        KeyAction::Stop
    } else if c == '+' || c == '=' {
        KeyAction::VolumeUp
    } else if c == '-' || c == '_' {
        KeyAction::VolumeDown
    } else if c == '[' {
        KeyAction::SeekBackward
    } else if c == ']' {
        KeyAction::SeekForward
    } else if c == 'z' {
        KeyAction::ToggleShuffle
    } else if c == 'r' {
        KeyAction::CycleRepeat
    } else if c == 'R' {
        KeyAction::Reload
    } else if c == 'a' {
        KeyAction::Enqueue
    } else if c == 'd' && in_queue_panel(app) {
        KeyAction::QueueRemove
    } else if c == 'J' && in_queue_panel(app) {
        KeyAction::QueueMove(1)
    } else if c == 'K' && in_queue_panel(app) {
        KeyAction::QueueMove(-1isize)
    } else if c == 'c' && in_queue_panel(app) {
        KeyAction::QueueClear
    } else if '1' <= c <= '8' {
        KeyAction::JumpToSection((c as int - '1' as int) as usize)
    } else if c == 'f' {
        KeyAction::Like
    } else if c == 't' {
        KeyAction::CycleTheme
    } else if c == 'g' {
        KeyAction::SignIn
    } else if c == 'h' {
        left_action(app)
    } else if c == 'l' {
        right_action(app)
    } else if c == 'j' {
        navigate_action(app, 1)
    } else if c == 'k' {
        navigate_action(app, -1isize)
    } else {
        KeyAction::Nothing
    }
}

/// The action a key press asks for: the account picker, when open, takes
/// every key; then the search input, while typing; then the shortcuts.
pub open spec fn spec_key_action(app: App, key: KeyPress) -> KeyAction {
    if app.authentication_flow is AwaitingConfirmation {
        picker_action(key)
    } else if app.input_mode {
        typing_action(key)
    } else {
        global_action(app, key)
    }
}

fn navigate_choice(app: &App, delta: isize) -> (r: KeyAction)
    ensures
        r == navigate_action(*app, delta),
{
    match app.focus {
        Focus::Sidebar => KeyAction::MoveSidebar(delta),
        Focus::Main => match app.section {
            Section::Inicio => KeyAction::MoveHome(if delta < 0 { HomeDirection::Up } else { HomeDirection::Down }),
            Section::Letra => KeyAction::ScrollLyrics(delta),
            Section::Ajuda => KeyAction::ScrollHelp(delta),
            _ => KeyAction::MoveSelection(delta),
        },
    }
}

fn page_choice(app: &App, delta: isize) -> (r: KeyAction)
    ensures
        r == page_action(*app, delta),
{
    match app.focus {
        Focus::Sidebar => KeyAction::Nothing,
        Focus::Main => match app.section {
            Section::Letra => KeyAction::ScrollLyrics(delta),
            Section::Ajuda => KeyAction::ScrollHelp(delta),
            _ => KeyAction::PageSelection(delta),
        },
    }
}

fn activate_choice(app: &App) -> (r: KeyAction)
    ensures
        r == activate_action(*app),
{
    match app.focus {
        Focus::Sidebar => KeyAction::FocusMain,
        Focus::Main => match app.section {
            Section::Buscar | Section::Fila => KeyAction::PlaySelected,
            Section::Inicio => KeyAction::OpenHome,
            Section::Playlists => KeyAction::OpenPlaylist,
            Section::Biblioteca => KeyAction::OpenLibraryPlaylist,
            Section::Artistas => KeyAction::OpenArtist,
            _ => KeyAction::Nothing,
        },
    }
}

fn queue_panel(app: &App) -> (r: bool)
    ensures
        r == in_queue_panel(*app),
{
    app.section == Section::Fila && app.focus == Focus::Main
}

fn home_panel(app: &App) -> (r: bool)
    ensures
        r == in_home_panel(*app),
{
    app.section == Section::Inicio && app.focus == Focus::Main
}

fn left_choice(app: &App) -> (r: KeyAction)
    requires
        app.fits(),
    ensures
        r == left_action(*app),
{
    if home_panel(app) {
        let current = match app.selected {
            Some(i) => i,
            None => 0,
        };
        let view = app.home_view();
        if view.is_first_in_shelf(current) {
            KeyAction::FocusSidebar
        } else {
            KeyAction::MoveHome(HomeDirection::Left)
        }
    } else {
        KeyAction::FocusSidebar
    }
}

fn right_choice(app: &App) -> (r: KeyAction)
    ensures
        r == right_action(*app),
{
    if home_panel(app) {
        KeyAction::MoveHome(HomeDirection::Right)
    } else {
        KeyAction::FocusMain
    }
}

fn char_choice(app: &App, c: char, ctrl: bool) -> (r: KeyAction)
    requires
        app.fits(),
    ensures
        r == char_action(*app, c, ctrl),
{
    if c == 'q' {
        KeyAction::Quit
    } else if c == 'c' && ctrl {
        KeyAction::Quit
    } else if c == '/' {
        KeyAction::StartSearch
    } else if c == '?' {
        KeyAction::OpenHelp
    } else if c == ' ' {
        KeyAction::TogglePause
    } else if c == 'n' {
        KeyAction::NextTrack
    } else if c == 'p' {
        KeyAction::PreviousTrack
    } else if c == 's' {
        KeyAction::Stop
    } else if c == '+' || c == '=' {
        KeyAction::VolumeUp
    } else if c == '-' || c == '_' {
        KeyAction::VolumeDown
    } else if c == '[' {
        KeyAction::SeekBackward
    } else if c == ']' {
        KeyAction::SeekForward
    } else if c == 'z' {
        KeyAction::ToggleShuffle
    } else if c == 'r' {
        KeyAction::CycleRepeat
    } else if c == 'R' {
        KeyAction::Reload
    } else if c == 'a' {
        KeyAction::Enqueue
    } else if c == 'd' && queue_panel(app) {
        KeyAction::QueueRemove
    } else if c == 'J' && queue_panel(app) {
        KeyAction::QueueMove(1)
    } else if c == 'K' && queue_panel(app) {
        KeyAction::QueueMove(-1)
    } else if c == 'c' && queue_panel(app) {
        KeyAction::QueueClear
    } else if '1' <= c && c <= '8' {
        let code: u32 = c as u32;
        KeyAction::JumpToSection((code - 49) as usize)
    } else if c == 'f' {
        KeyAction::Like
    } else if c == 't' {
        KeyAction::CycleTheme
    } else if c == 'g' {
        KeyAction::SignIn
    } else if c == 'h' {
        left_choice(app)
    } else if c == 'l' {
        right_choice(app)
    } else if c == 'j' {
        navigate_choice(app, 1)
    } else if c == 'k' {
        navigate_choice(app, -1)
    } else {
        KeyAction::Nothing
    }
}

/// The action `key` asks for in the state `app` (see [`spec_key_action`]).
pub fn key_action(app: &App, key: KeyPress) -> (r: KeyAction)
    requires
        app.fits(),
    ensures
        r == spec_key_action(*app, key),
{
    if app.sign_in_preview().is_some() {
        return match key.code {
            KeyCode::Up | KeyCode::Char('k') => KeyAction::SignInPrevious,
            KeyCode::Down | KeyCode::Char('j') => KeyAction::SignInNext,
            KeyCode::Enter => KeyAction::SignInConfirm,
            KeyCode::Esc => KeyAction::SignInCancel,
            _ => KeyAction::Nothing,
        };
    }
    if app.input_mode {
        return match key.code {
            KeyCode::Enter => KeyAction::SubmitSearch,
            KeyCode::Esc => KeyAction::CancelSearch,
            KeyCode::Backspace => KeyAction::EraseQueryChar,
            KeyCode::Char(c) => KeyAction::TypeQueryChar(c),
            _ => KeyAction::Nothing,
        };
    }
    match key.code {
        KeyCode::Char(c) => char_choice(app, c, key.ctrl),
        KeyCode::Delete => if queue_panel(app) { KeyAction::QueueRemove } else { KeyAction::Nothing },
        KeyCode::Tab => KeyAction::ToggleFocus,
        KeyCode::Left => left_choice(app),
        KeyCode::Right => right_choice(app),
        KeyCode::Down => navigate_choice(app, 1),
        KeyCode::Up => navigate_choice(app, -1),
        KeyCode::PageDown => page_choice(app, PAGE_JUMP),
        KeyCode::PageUp => page_choice(app, -PAGE_JUMP),
        KeyCode::Home => if app.focus == Focus::Main { KeyAction::SelectFirst } else { KeyAction::Nothing },
        KeyCode::End => if app.focus == Focus::Main { KeyAction::SelectLast } else { KeyAction::Nothing },
        KeyCode::Enter => activate_choice(app),
        _ => KeyAction::Nothing,
    }
}

/// The single effect a list of at most one holds.
pub open spec fn only_effect(r: Seq<Effect>) -> Option<Effect> {
    if r.len() == 0 { None } else { Some(r[0]) }
}

/// `scroll` moved by `delta` rows, saturating at both ends.
pub open spec fn scrolled(scroll: u16, delta: isize) -> u16 {
    if delta > 0 {
        if scroll + (delta as u16) > u16::MAX { u16::MAX } else { (scroll + (delta as u16)) as u16 }
    } else {
        if scroll - ((-delta) as u16) < 0 { 0 } else { (scroll - ((-delta) as u16)) as u16 }
    }
}

/// Whether `after` and `r` are what running `action` on `before` gives.
pub open spec fn performed(before: App, action: KeyAction, after: App, r: Vec<Effect>) -> bool {
    let e = only_effect(r@);
    match action {
        KeyAction::Nothing => after == before && r@.len() == 0,
        KeyAction::SignInPrevious => r@.len() == 0 && App::select_previous_sign_in_account_outcome(before, after),
        KeyAction::SignInNext => r@.len() == 0 && App::select_next_sign_in_account_outcome(before, after),
        KeyAction::SignInConfirm => r@.len() <= 1 && App::confirm_sign_in_outcome(before, after, e),
        KeyAction::SignInCancel => r@.len() <= 1 && App::cancel_sign_in_outcome(before, after, e),
        KeyAction::SubmitSearch => r@.len() <= 1
            && App::do_search_outcome(App { input_mode: false, focus: Focus::Main, ..before }, after, e),
        KeyAction::CancelSearch => r@.len() == 0
            && after == (App { input_mode: false, query: after.query, ..before })
            && after.query@.len() == 0,
        KeyAction::EraseQueryChar => r@.len() == 0
            && after == (App { query: after.query, ..before })
            && after.query@ == (if before.query@.len() > 0 { before.query@.drop_last() } else { before.query@ }),
        KeyAction::TypeQueryChar(c) => r@.len() == 0
            && after == (App { query: after.query, ..before })
            && after.query@ == before.query@.push(c),
        KeyAction::Quit => r@.len() == 0 && after == (App { running: false, ..before }),
        KeyAction::StartSearch => r@.len() == 0
            && after == (App {
                input_mode: true,
                query: after.query,
                section: Section::Buscar,
                sidebar_index: 1,
                focus: Focus::Main,
                selected: Some(0),
                ..before
            })
            && after.query@.len() == 0,
        KeyAction::OpenHelp => r@.len() == 0 && after == (App { section: Section::Ajuda, sidebar_index: 7, ..before }),
        KeyAction::TogglePause => r@.len() == 1 && App::toggle_pause_outcome(before, after, r@[0]),
        KeyAction::NextTrack => r@.len() <= 1 && App::next_track_outcome(before, after, e),
        KeyAction::PreviousTrack => r@.len() <= 1 && App::prev_track_outcome(before, after, e),
        KeyAction::Stop => r@.len() == 1 && App::stop_playback_outcome(before, after, r@[0]),
        KeyAction::VolumeUp => after == before && r@ == seq![Effect::VolumeUp],
        KeyAction::VolumeDown => after == before && r@ == seq![Effect::VolumeDown],
        KeyAction::SeekBackward => after == before && r@.len() <= 1 && App::seek_backward_outcome(before, e),
        KeyAction::SeekForward => after == before && r@.len() <= 1 && App::seek_forward_outcome(before, e),
        KeyAction::ToggleShuffle => r@.len() == 0 && App::toggle_shuffle_outcome(before, after),
        KeyAction::CycleRepeat => r@.len() == 0 && App::cycle_repeat_outcome(before, after),
        KeyAction::Reload => after.status@ == "Atualizando recomendações e biblioteca…"@
            && exists|mid: App| #[trigger] App::sync_home_and_library_outcome(before, mid, r)
                && after == (App { status: after.status, ..mid }),
        KeyAction::Enqueue => r@.len() <= 1 && App::enqueue_selected_outcome(before, after, e),
        KeyAction::QueueRemove => r@.len() == 0 && App::queue_remove_selected_outcome(before, after),
        KeyAction::QueueMove(d) => r@.len() == 0 && App::queue_move_selected_outcome(before, d, after),
        KeyAction::QueueClear => r@.len() == 0 && App::queue_clear_outcome(before, after),
        KeyAction::JumpToSection(i) => r@.len() == 0 && App::jump_to_section_outcome(before, i, after),
        KeyAction::Like => r@.len() <= 1 && App::like_current_outcome(before, after, e),
        KeyAction::CycleTheme => r@.len() == 1 && App::cycle_theme_outcome(before, after, r@[0]),
        KeyAction::SignIn => r@.len() <= 1 && App::prepare_sign_in_outcome(before, after, e),
        KeyAction::ToggleFocus => r@.len() == 0 && after == (App {
            focus: if before.focus == Focus::Sidebar { Focus::Main } else { Focus::Sidebar },
            ..before
        }),
        KeyAction::FocusSidebar => r@.len() == 0 && after == (App { focus: Focus::Sidebar, ..before }),
        KeyAction::FocusMain => r@.len() == 0 && after == (App { focus: Focus::Main, ..before }),
        KeyAction::MoveHome(d) => r@.len() == 0 && App::move_home_outcome(before, d, after),
        KeyAction::MoveSidebar(d) => r@.len() == 0 && App::move_sidebar_outcome(before, d, after),
        KeyAction::MoveSelection(d) => r@.len() == 0 && App::move_selection_outcome(before, d, after),
        KeyAction::PageSelection(d) => r@.len() == 0 && App::page_selection_outcome(before, d, after),
        KeyAction::ScrollLyrics(d) => r@.len() == 0 && after == (if before.lyrics is Plain {
            App {
                ui: UiState { lyrics: LyricsView { scroll: scrolled(before.ui.lyrics.scroll, d), ..before.ui.lyrics }, ..before.ui },
                ..before
            }
        } else {
            before
        }),
        KeyAction::ScrollHelp(d) => r@.len() == 0
            && after == (App { ui: UiState { help_scroll: scrolled(before.ui.help_scroll, d), ..before.ui }, ..before }),
        KeyAction::SelectFirst => r@.len() == 0 && App::select_first_outcome(before, after),
        KeyAction::SelectLast => r@.len() == 0 && App::select_last_outcome(before, after),
        KeyAction::PlaySelected => App::play_selected_outcome(before, after, r),
        KeyAction::OpenHome => r@.len() <= 1 && App::open_selected_home_outcome(before, after, e),
        KeyAction::OpenPlaylist => r@.len() <= 1 && App::open_selected_playlist_outcome(before, after, e),
        KeyAction::OpenLibraryPlaylist => r@.len() <= 1 && App::open_selected_library_playlist_outcome(before, after, e),
        KeyAction::OpenArtist => r@.len() <= 1 && App::open_selected_artist_outcome(before, after, e),
    }
}

/// Whether a scroll amount can be negated.
pub open spec fn scroll_ok(action: KeyAction) -> bool {
    match action {
        KeyAction::ScrollLyrics(d) | KeyAction::ScrollHelp(d) => d > isize::MIN,
        _ => true,
    }
}

fn effects_of(e: Option<Effect>) -> (r: Vec<Effect>)
    ensures
        r@.len() <= 1,
        only_effect(r@) == e,
{
    let mut r: Vec<Effect> = Vec::new();
    match e {
        Some(x) => r.push(x),
        None => {},
    }
    r
}

fn one_effect(e: Effect) -> (r: Vec<Effect>)
    ensures
        r@ == seq![e],
{
    let mut r: Vec<Effect> = Vec::new();
    r.push(e);
    r
}

fn scroll_by(scroll: u16, delta: isize) -> (r: u16)
    requires
        delta > isize::MIN,
    ensures
        r == scrolled(scroll, delta),
{
    if delta > 0 {
        scroll.saturating_add(delta as u16)
    } else {
        scroll.saturating_sub((-delta) as u16)
    }
}

/// Scrolls plain lyrics; timed lyrics follow playback and ignore it.
fn scroll_lyrics(app: &mut App, delta: isize)
    requires
        delta > isize::MIN,
    ensures
        *final(app) == (if old(app).lyrics is Plain {
            App {
                ui: UiState {
                    lyrics: LyricsView { scroll: scrolled(old(app).ui.lyrics.scroll, delta), ..old(app).ui.lyrics },
                    ..old(app).ui
                },
                ..*old(app)
            }
        } else {
            *old(app)
        }),
{
    let plain = match &app.lyrics {
        LyricsState::Plain(_) => true,
        _ => false,
    };
    if plain {
        let s = scroll_by(app.ui.lyrics.scroll, delta);
        app.ui.lyrics.scroll = s;
    }
}

/// Scrolls the Help panel (its lower limit is applied when it is drawn).
fn scroll_help(app: &mut App, delta: isize)
    requires
        delta > isize::MIN,
    ensures
        *final(app) == (App { ui: UiState { help_scroll: scrolled(old(app).ui.help_scroll, delta), ..old(app).ui }, ..*old(app) }),
{
    let s = scroll_by(app.ui.help_scroll, delta);
    app.ui.help_scroll = s;
}

/// Whether `action` concerns the account picker.
pub open spec fn is_picker_action(action: KeyAction) -> bool {
    action is Nothing || action is SignInPrevious || action is SignInNext || action is SignInConfirm || action is SignInCancel
}

#[verifier::spinoff_prover]
#[verifier::rlimit(40)]
fn perform_picker(app: &mut App, action: KeyAction) -> (r: Vec<Effect>)
    requires
        old(app).wf(),
        old(app).fits(),
        old(app).queue@.len() < usize::MAX,
        scroll_ok(action),
        is_picker_action(action),
    ensures
        performed(*old(app), action, *final(app), r),
{
    match action {
        KeyAction::Nothing => Vec::new(),
        KeyAction::SignInPrevious => {
            app.select_previous_sign_in_account();
            Vec::new()
        },
        KeyAction::SignInNext => {
            app.select_next_sign_in_account();
            Vec::new()
        },
        KeyAction::SignInConfirm => effects_of(app.confirm_sign_in()),
        KeyAction::SignInCancel => effects_of(app.cancel_sign_in()),
        _ => Vec::new(),
    }
}

/// Whether `action` concerns the search input.
pub open spec fn is_typing_action(action: KeyAction) -> bool {
    action is SubmitSearch || action is CancelSearch || action is EraseQueryChar || action is TypeQueryChar
}

#[verifier::spinoff_prover]
#[verifier::rlimit(40)]
fn perform_typing(app: &mut App, action: KeyAction) -> (r: Vec<Effect>)
    requires
        old(app).wf(),
        old(app).fits(),
        old(app).queue@.len() < usize::MAX,
        scroll_ok(action),
        is_typing_action(action),
    ensures
        performed(*old(app), action, *final(app), r),
{
    match action {
        KeyAction::SubmitSearch => {
            app.input_mode = false;
            app.focus = Focus::Main;
            effects_of(app.do_search())
        },
        KeyAction::CancelSearch => {
            app.input_mode = false;
            app.query = String::new();
            Vec::new()
        },
        KeyAction::EraseQueryChar => {
            let cs = crate::text::chars_of(app.query.as_str());
            if cs.len() > 0 {
                let kept = crate::text::sub_chars(&cs, 0, cs.len() - 1);
                app.query = crate::text::string_from_chars(&kept);
                proof {
                    assert(kept@ =~= old(app).query@.drop_last());
                }
            }
            Vec::new()
        },
        KeyAction::TypeQueryChar(c) => {
            push_char(&mut app.query, c);
            Vec::new()
        },
        _ => Vec::new(),
    }
}

/// Whether `action` concerns quitting and the search and help shortcuts.
pub open spec fn is_section_action(action: KeyAction) -> bool {
    action is Quit || action is StartSearch || action is OpenHelp
}

#[verifier::spinoff_prover]
#[verifier::rlimit(40)]
fn perform_section(app: &mut App, action: KeyAction) -> (r: Vec<Effect>)
    requires
        old(app).wf(),
        old(app).fits(),
        old(app).queue@.len() < usize::MAX,
        scroll_ok(action),
        is_section_action(action),
    ensures
        performed(*old(app), action, *final(app), r),
{
    match action {
        KeyAction::Quit => {
            app.running = false;
            Vec::new()
        },
        KeyAction::StartSearch => {
            app.input_mode = true;
            app.query = String::new();
            app.section = Section::Buscar;
            app.sidebar_index = Section::Buscar.index();
            app.focus = Focus::Main;
            app.selected = Some(0);
            Vec::new()
        },
        KeyAction::OpenHelp => {
            app.section = Section::Ajuda;
            app.sidebar_index = Section::Ajuda.index();
            Vec::new()
        },
        _ => Vec::new(),
    }
}

/// Whether `action` concerns playback and preferences.
pub open spec fn is_playback_action(action: KeyAction) -> bool {
    action is TogglePause || action is NextTrack || action is PreviousTrack || action is Stop || action is VolumeUp || action is VolumeDown || action is SeekBackward || action is SeekForward || action is ToggleShuffle || action is CycleRepeat || action is Reload || action is Like || action is CycleTheme || action is SignIn
}

#[verifier::spinoff_prover]
#[verifier::rlimit(40)]
fn perform_playback(app: &mut App, action: KeyAction) -> (r: Vec<Effect>)
    requires
        old(app).wf(),
        old(app).fits(),
        old(app).queue@.len() < usize::MAX,
        scroll_ok(action),
        is_playback_action(action),
    ensures
        performed(*old(app), action, *final(app), r),
{
    match action {
        KeyAction::TogglePause => one_effect(app.toggle_pause()),
        KeyAction::NextTrack => effects_of(app.next_track()),
        KeyAction::PreviousTrack => effects_of(app.prev_track()),
        KeyAction::Stop => one_effect(app.stop_playback()),
        KeyAction::VolumeUp => one_effect(Effect::VolumeUp),
        KeyAction::VolumeDown => one_effect(Effect::VolumeDown),
        KeyAction::SeekBackward => effects_of(app.seek_backward()),
        KeyAction::SeekForward => effects_of(app.seek_forward()),
        KeyAction::ToggleShuffle => {
            app.toggle_shuffle();
            Vec::new()
        },
        KeyAction::CycleRepeat => {
            app.cycle_repeat();
            Vec::new()
        },
        KeyAction::Reload => {
            let r = app.sync_home_and_library();
            let ghost mid = *app;
            app.status = string_from("Atualizando recomendações e biblioteca…");
            proof {
                assert(App::sync_home_and_library_outcome(*old(app), mid, r));
            }
            r
        },
        KeyAction::Like => effects_of(app.like_current()),
        KeyAction::CycleTheme => one_effect(app.cycle_theme()),
        KeyAction::SignIn => effects_of(app.prepare_sign_in()),
        _ => Vec::new(),
    }
}

/// Whether `action` concerns the queue and opening the selection.
pub open spec fn is_queue_action(action: KeyAction) -> bool {
    action is Enqueue || action is QueueRemove || action is QueueMove || action is QueueClear || action is PlaySelected || action is OpenHome || action is OpenPlaylist || action is OpenLibraryPlaylist || action is OpenArtist
}

#[verifier::spinoff_prover]
#[verifier::rlimit(40)]
fn perform_queue(app: &mut App, action: KeyAction) -> (r: Vec<Effect>)
    requires
        old(app).wf(),
        old(app).fits(),
        old(app).queue@.len() < usize::MAX,
        scroll_ok(action),
        is_queue_action(action),
    ensures
        performed(*old(app), action, *final(app), r),
{
    match action {
        KeyAction::Enqueue => effects_of(app.enqueue_selected()),
        KeyAction::QueueRemove => {
            app.queue_remove_selected();
            Vec::new()
        },
        KeyAction::QueueMove(d) => {
            app.queue_move_selected(d);
            Vec::new()
        },
        KeyAction::QueueClear => {
            app.queue_clear();
            Vec::new()
        },
        KeyAction::PlaySelected => app.play_selected(),
        KeyAction::OpenHome => effects_of(app.open_selected_home()),
        KeyAction::OpenPlaylist => effects_of(app.open_selected_playlist()),
        KeyAction::OpenLibraryPlaylist => effects_of(app.open_selected_library_playlist()),
        KeyAction::OpenArtist => effects_of(app.open_selected_artist()),
        _ => Vec::new(),
    }
}

/// Whether `action` concerns the focus and the section.
pub open spec fn is_focus_action(action: KeyAction) -> bool {
    action is JumpToSection || action is ToggleFocus || action is FocusSidebar || action is FocusMain
}

#[verifier::spinoff_prover]
#[verifier::rlimit(40)]
fn perform_focus(app: &mut App, action: KeyAction) -> (r: Vec<Effect>)
    requires
        old(app).wf(),
        old(app).fits(),
        old(app).queue@.len() < usize::MAX,
        scroll_ok(action),
        is_focus_action(action),
    ensures
        performed(*old(app), action, *final(app), r),
{
    match action {
        KeyAction::JumpToSection(i) => {
            app.jump_to_section(i);
            Vec::new()
        },
        KeyAction::ToggleFocus => {
            app.focus = match app.focus {
                Focus::Sidebar => Focus::Main,
                Focus::Main => Focus::Sidebar,
            };
            Vec::new()
        },
        KeyAction::FocusSidebar => {
            app.focus = Focus::Sidebar;
            Vec::new()
        },
        KeyAction::FocusMain => {
            app.focus = Focus::Main;
            Vec::new()
        },
        _ => Vec::new(),
    }
}

/// Whether `action` concerns moving the selection.
pub open spec fn is_moves_action(action: KeyAction) -> bool {
    action is MoveHome || action is MoveSidebar || action is MoveSelection || action is PageSelection
}

#[verifier::spinoff_prover]
#[verifier::rlimit(40)]
fn perform_moves(app: &mut App, action: KeyAction) -> (r: Vec<Effect>)
    requires
        old(app).wf(),
        old(app).fits(),
        old(app).queue@.len() < usize::MAX,
        scroll_ok(action),
        is_moves_action(action),
    ensures
        performed(*old(app), action, *final(app), r),
{
    match action {
        KeyAction::MoveHome(d) => {
            app.move_home(d);
            Vec::new()
        },
        KeyAction::MoveSidebar(d) => {
            app.move_sidebar(d);
            Vec::new()
        },
        KeyAction::MoveSelection(d) => {
            app.move_selection(d);
            Vec::new()
        },
        KeyAction::PageSelection(d) => {
            app.page_selection(d);
            Vec::new()
        },
        _ => Vec::new(),
    }
}

/// Whether `action` concerns scrolling.
pub open spec fn is_scroll_action(action: KeyAction) -> bool {
    action is ScrollLyrics || action is ScrollHelp
}

#[verifier::spinoff_prover]
#[verifier::rlimit(40)]
fn perform_scroll(app: &mut App, action: KeyAction) -> (r: Vec<Effect>)
    requires
        old(app).wf(),
        old(app).fits(),
        old(app).queue@.len() < usize::MAX,
        scroll_ok(action),
        is_scroll_action(action),
    ensures
        performed(*old(app), action, *final(app), r),
{
    match action {
        KeyAction::ScrollLyrics(d) => {
            scroll_lyrics(app, d);
            Vec::new()
        },
        KeyAction::ScrollHelp(d) => {
            scroll_help(app, d);
            Vec::new()
        },
        _ => Vec::new(),
    }
}

/// Whether `action` concerns the ends of the list.
pub open spec fn is_ends_action(action: KeyAction) -> bool {
    action is SelectFirst || action is SelectLast
}

#[verifier::spinoff_prover]
#[verifier::rlimit(40)]
fn perform_ends(app: &mut App, action: KeyAction) -> (r: Vec<Effect>)
    requires
        old(app).wf(),
        old(app).fits(),
        old(app).queue@.len() < usize::MAX,
        scroll_ok(action),
        is_ends_action(action),
    ensures
        performed(*old(app), action, *final(app), r),
{
    match action {
        KeyAction::SelectFirst => {
            app.select_first();
            Vec::new()
        },
        KeyAction::SelectLast => {
            app.select_last();
            Vec::new()
        },
        _ => Vec::new(),
    }
}

/// Runs `action` (see [`performed`]).
pub fn perform(app: &mut App, action: KeyAction) -> (r: Vec<Effect>)
    requires
        old(app).wf(),
        old(app).fits(),
        old(app).queue@.len() < usize::MAX,
        scroll_ok(action),
    ensures
        performed(*old(app), action, *final(app), r),
{
    match action {
        KeyAction::Nothing | KeyAction::SignInPrevious | KeyAction::SignInNext | KeyAction::SignInConfirm | KeyAction::SignInCancel => perform_picker(app, action),
        KeyAction::SubmitSearch | KeyAction::CancelSearch | KeyAction::EraseQueryChar | KeyAction::TypeQueryChar(..) => perform_typing(app, action),
        KeyAction::Quit | KeyAction::StartSearch | KeyAction::OpenHelp => perform_section(app, action),
        KeyAction::TogglePause | KeyAction::NextTrack | KeyAction::PreviousTrack | KeyAction::Stop | KeyAction::VolumeUp | KeyAction::VolumeDown | KeyAction::SeekBackward | KeyAction::SeekForward | KeyAction::ToggleShuffle | KeyAction::CycleRepeat | KeyAction::Reload | KeyAction::Like | KeyAction::CycleTheme | KeyAction::SignIn => perform_playback(app, action),
        KeyAction::Enqueue | KeyAction::QueueRemove | KeyAction::QueueMove(..) | KeyAction::QueueClear | KeyAction::PlaySelected | KeyAction::OpenHome | KeyAction::OpenPlaylist | KeyAction::OpenLibraryPlaylist | KeyAction::OpenArtist => perform_queue(app, action),
        KeyAction::JumpToSection(..) | KeyAction::ToggleFocus | KeyAction::FocusSidebar | KeyAction::FocusMain => perform_focus(app, action),
        KeyAction::MoveHome(..) | KeyAction::MoveSidebar(..) | KeyAction::MoveSelection(..) | KeyAction::PageSelection(..) => perform_moves(app, action),
        KeyAction::ScrollLyrics(..) | KeyAction::ScrollHelp(..) => perform_scroll(app, action),
        KeyAction::SelectFirst | KeyAction::SelectLast => perform_ends(app, action),
    }
}

/// The keys' actions never negate an unbounded scroll amount.
proof fn lemma_key_scroll_ok(app: App, key: KeyPress)
    ensures
        scroll_ok(spec_key_action(app, key)),
{
}

/// Handles a key press: picks its action (see [`spec_key_action`]) and
/// runs it (see [`performed`]), returning the outside work it asks for.
pub fn handle_key(app: &mut App, key: KeyPress) -> (r: Vec<Effect>)
    requires
        old(app).wf(),
        old(app).fits(),
        old(app).queue@.len() < usize::MAX,
    ensures
        performed(*old(app), spec_key_action(*old(app), key), *final(app), r),
{
    let action = key_action(app, key);
    proof {
        lemma_key_scroll_ok(*app, key);
    }
    perform(app, action)
}

/// What a mouse-wheel step of `delta` rows does: it scrolls the content,
/// whatever has the focus — the Lyrics or Help text, or the list a page at
/// a time.
pub open spec fn wheel_outcome(before: App, delta: isize, after: App) -> bool {
    match before.section {
        Section::Letra => after == (if before.lyrics is Plain {
            App {
                ui: UiState { lyrics: LyricsView { scroll: scrolled(before.ui.lyrics.scroll, delta), ..before.ui.lyrics }, ..before.ui },
                ..before
            }
        } else {
            before
        }),
        Section::Ajuda => after == (App { ui: UiState { help_scroll: scrolled(before.ui.help_scroll, delta), ..before.ui }, ..before }),
        _ => App::page_selection_outcome(before, delta, after),
    }
}

/// Handles a mouse-wheel step of `delta` rows (see [`wheel_outcome`]).
pub fn handle_scroll(app: &mut App, delta: isize)
    requires
        old(app).fits(),
        delta > isize::MIN,
    ensures
        wheel_outcome(*old(app), delta, *final(app)),
{
    match app.section {
        Section::Letra => scroll_lyrics(app, delta),
        Section::Ajuda => scroll_help(app, delta),
        _ => app.page_selection(delta),
    }
}

/// The global key table: outside the account picker and the search input,
/// each plain key below asks for the same action whatever the rest of the
/// state. `n` skips forward and `p` goes back; space pauses; `[`/`]` seek;
/// `+`/`=` and `-`/`_` change the volume; `z` and `r` change the playback
/// modes; `a` enqueues; `f` likes; `q` quits.
pub proof fn lemma_key_table(app: App)
    requires
        !(app.authentication_flow is AwaitingConfirmation),
        !app.input_mode,
    ensures
        spec_key_action(app, KeyPress { code: KeyCode::Char('n'), ctrl: false }) == KeyAction::NextTrack,
        spec_key_action(app, KeyPress { code: KeyCode::Char('p'), ctrl: false }) == KeyAction::PreviousTrack,
        spec_key_action(app, KeyPress { code: KeyCode::Char(' '), ctrl: false }) == KeyAction::TogglePause,
        spec_key_action(app, KeyPress { code: KeyCode::Char('s'), ctrl: false }) == KeyAction::Stop,
        spec_key_action(app, KeyPress { code: KeyCode::Char('['), ctrl: false }) == KeyAction::SeekBackward,
        spec_key_action(app, KeyPress { code: KeyCode::Char(']'), ctrl: false }) == KeyAction::SeekForward,
        spec_key_action(app, KeyPress { code: KeyCode::Char('+'), ctrl: false }) == KeyAction::VolumeUp,
        spec_key_action(app, KeyPress { code: KeyCode::Char('='), ctrl: false }) == KeyAction::VolumeUp,
        spec_key_action(app, KeyPress { code: KeyCode::Char('-'), ctrl: false }) == KeyAction::VolumeDown,
        spec_key_action(app, KeyPress { code: KeyCode::Char('_'), ctrl: false }) == KeyAction::VolumeDown,
        spec_key_action(app, KeyPress { code: KeyCode::Char('z'), ctrl: false }) == KeyAction::ToggleShuffle,
        spec_key_action(app, KeyPress { code: KeyCode::Char('r'), ctrl: false }) == KeyAction::CycleRepeat,
        spec_key_action(app, KeyPress { code: KeyCode::Char('R'), ctrl: false }) == KeyAction::Reload,
        spec_key_action(app, KeyPress { code: KeyCode::Char('a'), ctrl: false }) == KeyAction::Enqueue,
        spec_key_action(app, KeyPress { code: KeyCode::Char('f'), ctrl: false }) == KeyAction::Like,
        spec_key_action(app, KeyPress { code: KeyCode::Char('t'), ctrl: false }) == KeyAction::CycleTheme,
        spec_key_action(app, KeyPress { code: KeyCode::Char('g'), ctrl: false }) == KeyAction::SignIn,
        spec_key_action(app, KeyPress { code: KeyCode::Char('/'), ctrl: false }) == KeyAction::StartSearch,
        spec_key_action(app, KeyPress { code: KeyCode::Char('?'), ctrl: false }) == KeyAction::OpenHelp,
        spec_key_action(app, KeyPress { code: KeyCode::Char('q'), ctrl: false }) == KeyAction::Quit,
        spec_key_action(app, KeyPress { code: KeyCode::Char('c'), ctrl: true }) == KeyAction::Quit,
        spec_key_action(app, KeyPress { code: KeyCode::Char('1'), ctrl: false }) == KeyAction::JumpToSection(0),
        spec_key_action(app, KeyPress { code: KeyCode::Char('8'), ctrl: false }) == KeyAction::JumpToSection(7),
        spec_key_action(app, KeyPress { code: KeyCode::Tab, ctrl: false }) == KeyAction::ToggleFocus,
{
}

/// The queue keys act only on the queue panel: there `d` and Delete remove
/// the selected entry, `J`/`K` move it down/up and `c` clears the queue;
/// anywhere else `d` and Delete do nothing. `j`/`k` move down/up in the
/// sidebar when it has the focus, and in a list panel otherwise.
pub proof fn lemma_queue_and_move_keys(app: App)
    requires
        !(app.authentication_flow is AwaitingConfirmation),
        !app.input_mode,
    ensures
        app.section == Section::Fila && app.focus == Focus::Main ==> {
            &&& spec_key_action(app, KeyPress { code: KeyCode::Char('d'), ctrl: false }) == KeyAction::QueueRemove
            &&& spec_key_action(app, KeyPress { code: KeyCode::Delete, ctrl: false }) == KeyAction::QueueRemove
            &&& spec_key_action(app, KeyPress { code: KeyCode::Char('J'), ctrl: false }) == KeyAction::QueueMove(1)
            &&& spec_key_action(app, KeyPress { code: KeyCode::Char('K'), ctrl: false }) == KeyAction::QueueMove(-1isize)
            &&& spec_key_action(app, KeyPress { code: KeyCode::Char('c'), ctrl: false }) == KeyAction::QueueClear
            &&& spec_key_action(app, KeyPress { code: KeyCode::Char('j'), ctrl: false }) == KeyAction::MoveSelection(1)
            &&& spec_key_action(app, KeyPress { code: KeyCode::Char('k'), ctrl: false }) == KeyAction::MoveSelection(-1isize)
        },
        !(app.section == Section::Fila && app.focus == Focus::Main) ==> {
            &&& spec_key_action(app, KeyPress { code: KeyCode::Char('d'), ctrl: false }) == KeyAction::Nothing
            &&& spec_key_action(app, KeyPress { code: KeyCode::Delete, ctrl: false }) == KeyAction::Nothing
        },
        app.focus == Focus::Sidebar ==> {
            &&& spec_key_action(app, KeyPress { code: KeyCode::Char('j'), ctrl: false }) == KeyAction::MoveSidebar(1)
            &&& spec_key_action(app, KeyPress { code: KeyCode::Char('k'), ctrl: false }) == KeyAction::MoveSidebar(-1isize)
            &&& spec_key_action(app, KeyPress { code: KeyCode::Down, ctrl: false }) == KeyAction::MoveSidebar(1)
            &&& spec_key_action(app, KeyPress { code: KeyCode::Up, ctrl: false }) == KeyAction::MoveSidebar(-1isize)
        },
{
}

} // verus!
