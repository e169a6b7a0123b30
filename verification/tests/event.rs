use ytmtui::app::{App, AuthenticationFlow, Effect, Focus, Section};
use ytmtui::event::{handle_key, handle_scroll, key_action, KeyAction, KeyCode, KeyPress};
use ytmtui::lyrics::LyricsState;
use ytmtui::models::{HomeSection, Playlist, Track};
use ytmtui::provider::{Capabilities, SignInAccount, SignInPreview};

fn test_app() -> App {
    App::with_provider("mock", "Mock Provider", Capabilities::all(), false)
}

fn key(code: KeyCode) -> KeyPress {
    KeyPress::plain(code)
}

fn prepared_sign_in_app() -> App {
    let mut app = test_app();
    app.authentication_flow = AuthenticationFlow::AwaitingConfirmation {
        operation_id: 1,
        preview: SignInPreview {
            id: 1,
            method: "firefox".to_string(),
            profile_label: Some("default-release".to_string()),
            accounts: vec![
                SignInAccount { index: 0, name: "Mock Account 1".to_string(), handle: None },
                SignInAccount { index: 1, name: "Mock Account 2".to_string(), handle: Some("@mock2".to_string()) },
            ],
            current_account_name: None,
        },
        selected: 0,
    };
    app.next_authentication_operation = 2;
    app
}

#[test]
fn sign_in_modal_consumes_navigation_and_escape() {
    let mut app = prepared_sign_in_app();
    handle_key(&mut app, key(KeyCode::Down));
    assert_eq!(app.sign_in_preview().unwrap().1, 1);
    handle_key(&mut app, key(KeyCode::Esc));
    assert!(app.sign_in_preview().is_none());
}

#[test]
fn sign_in_modal_supports_vim_navigation() {
    let mut app = prepared_sign_in_app();

    handle_key(&mut app, key(KeyCode::Char('j')));
    assert_eq!(app.sign_in_preview().unwrap().1, 1);
    handle_key(&mut app, key(KeyCode::Char('k')));
    assert_eq!(app.sign_in_preview().unwrap().1, 0);
    handle_key(&mut app, key(KeyCode::Char('k')));
    assert_eq!(app.sign_in_preview().unwrap().1, 1);
}

#[test]
fn sign_in_modal_intercepts_unhandled_shortcuts() {
    let mut app = prepared_sign_in_app();
    let initial_section = app.section;

    handle_key(&mut app, key(KeyCode::Char('q')));
    handle_key(&mut app, key(KeyCode::Char('/')));

    assert!(app.running, "q must not quit through the modal");
    assert!(!app.input_mode, "/ must not open search through the modal");
    assert_eq!(app.section, initial_section);
    assert!(app.sign_in_preview().is_some());
}

#[test]
fn sign_in_modal_enter_confirms_the_selected_account() {
    let mut app = prepared_sign_in_app();
    handle_key(&mut app, key(KeyCode::Down));

    let effects = handle_key(&mut app, key(KeyCode::Enter));

    assert!(
        app.sign_in_preview().is_none(),
        "confirmation must close the picker while activation starts"
    );
    assert!(app.is_loading(), "confirmation must start activation");
    assert!(matches!(
        effects.as_slice(),
        [Effect::ActivateSignIn { account_index: 1, .. }]
    ));
}

#[test]
fn slash_keeps_sidebar_index_in_sync_with_the_search_section() {
    let mut app = test_app();
    // Start somewhere else in the sidebar, as if the user had been
    // browsing the Queue before pressing "/".
    app.sidebar_index = Section::Fila.index();
    app.section = Section::Fila;

    handle_key(&mut app, key(KeyCode::Char('/')));
    assert_eq!(app.section, Section::Buscar);
    assert_eq!(app.sidebar_index, Section::Buscar.index());

    // Confirm the search, then move the sidebar selection: it must land
    // on the section adjacent to Search, not jump somewhere unrelated
    // because sidebar_index was left stale.
    app.input_mode = false;
    app.focus = Focus::Sidebar;
    handle_key(&mut app, key(KeyCode::Char('k'))); // up: Search -> Home
    assert_eq!(app.section, Section::Inicio);

    app.focus = Focus::Sidebar;
    handle_key(&mut app, key(KeyCode::Char('j'))); // down: Home -> Search
    handle_key(&mut app, key(KeyCode::Char('j'))); // down: Search -> Library
    assert_eq!(app.section, Section::Biblioteca);
}

#[test]
fn home_right_moves_cards_while_search_right_only_moves_focus() {
    let mut home = test_app();
    home.section = Section::Inicio;
    home.focus = Focus::Main;
    home.ui.home_columns = 3;
    home.recent = (1..=3)
        .map(|i| Track { video_id: format!("t{i}"), ..Default::default() })
        .collect();
    home.home = vec![HomeSection {
        title: "Next shelf".into(),
        items: (1..=2)
            .map(|i| Playlist { browse_id: format!("p{i}"), ..Default::default() })
            .collect(),
    }];
    home.selected = Some(1);

    handle_key(&mut home, key(KeyCode::Right));
    assert_eq!(home.focus, Focus::Main);
    assert_eq!(home.selected, Some(2));
    handle_key(&mut home, key(KeyCode::Down));
    assert_eq!(home.selected, Some(4));

    let mut search = test_app();
    search.section = Section::Buscar;
    search.focus = Focus::Sidebar;
    search.selected = Some(1);

    handle_key(&mut search, key(KeyCode::Right));
    assert_eq!(search.focus, Focus::Main);
    assert_eq!(search.selected, Some(1));
}

#[test]
fn home_left_on_the_first_card_of_a_shelf_returns_focus_to_the_sidebar() {
    let mut app = test_app();
    app.section = Section::Inicio;
    app.focus = Focus::Main;
    app.ui.home_columns = 3;
    app.recent = (1..=3)
        .map(|i| Track { video_id: format!("t{i}"), ..Default::default() })
        .collect();

    // Index 0 is the first card of the (only) shelf: "←" hands focus
    // back to the sidebar instead of circling to the shelf's last card.
    app.selected = Some(0);
    handle_key(&mut app, key(KeyCode::Left));
    assert_eq!(app.focus, Focus::Sidebar);
    assert_eq!(app.selected, Some(0), "selection itself is untouched, only focus moves");

    // Index 1 is a middle card: "←" behaves as before, circling within
    // the shelf and keeping focus on the main panel.
    app.focus = Focus::Main;
    app.selected = Some(1);
    handle_key(&mut app, key(KeyCode::Left));
    assert_eq!(app.focus, Focus::Main);
    assert_eq!(app.selected, Some(0));
}

#[test]
fn shift_r_triggers_a_home_and_library_reload() {
    let mut app = test_app();
    assert!(!app.is_loading(), "idle before the key is pressed");

    let effects = handle_key(&mut app, key(KeyCode::Char('R')));

    assert!(app.is_loading(), "R kicks off the same reload as the background sync");
    assert!(app.status.contains("Atualizando"));
    assert!(effects.iter().any(|e| matches!(e, Effect::LoadHome { .. })));
}

#[test]
fn typing_edits_the_query_and_enter_submits_it() {
    let mut app = test_app();
    handle_key(&mut app, key(KeyCode::Char('/')));
    assert!(app.input_mode);
    for c in "yelloww".chars() {
        handle_key(&mut app, key(KeyCode::Char(c)));
    }
    assert_eq!(app.query, "yelloww");
    handle_key(&mut app, key(KeyCode::Backspace));
    assert_eq!(app.query, "yellow");
    // Keys that are shortcuts elsewhere are text while typing.
    handle_key(&mut app, key(KeyCode::Char('q')));
    assert!(app.running);
    handle_key(&mut app, key(KeyCode::Backspace));
    let effects = handle_key(&mut app, key(KeyCode::Enter));
    assert!(!app.input_mode);
    assert_eq!(app.focus, Focus::Main);
    assert!(matches!(effects.as_slice(), [Effect::Search { query }] if query == "yellow"));
}

#[test]
fn escape_abandons_the_query() {
    let mut app = test_app();
    handle_key(&mut app, key(KeyCode::Char('/')));
    handle_key(&mut app, key(KeyCode::Char('x')));
    handle_key(&mut app, key(KeyCode::Esc));
    assert!(!app.input_mode);
    assert_eq!(app.query, "");
}

#[test]
fn q_and_control_c_quit() {
    let mut app = test_app();
    handle_key(&mut app, key(KeyCode::Char('q')));
    assert!(!app.running);

    let mut app = test_app();
    handle_key(&mut app, KeyPress { code: KeyCode::Char('c'), ctrl: true });
    assert!(!app.running);
}

#[test]
fn digits_jump_to_sections_and_question_mark_opens_help() {
    let mut app = test_app();
    handle_key(&mut app, key(KeyCode::Char('6')));
    assert_eq!(app.section, Section::Fila);
    handle_key(&mut app, key(KeyCode::Char('?')));
    assert_eq!(app.section, Section::Ajuda);
    assert_eq!(app.sidebar_index, Section::Ajuda.index());
}

#[test]
fn queue_editing_keys_only_act_in_the_focused_queue_panel() {
    let mut app = test_app();
    app.queue = vec![
        Track { video_id: "a".into(), title: "A".into(), ..Default::default() },
        Track { video_id: "b".into(), title: "B".into(), ..Default::default() },
    ];
    app.selected = Some(0);
    app.section = Section::Inicio;
    app.focus = Focus::Main;
    assert_eq!(key_action(&app, key(KeyCode::Char('d'))), KeyAction::Nothing);

    app.section = Section::Fila;
    assert_eq!(key_action(&app, key(KeyCode::Char('J'))), KeyAction::QueueMove(1));
    handle_key(&mut app, key(KeyCode::Char('J')));
    assert_eq!(app.queue[1].video_id, "a");
    assert_eq!(app.selected, Some(1));
    handle_key(&mut app, key(KeyCode::Delete));
    assert_eq!(app.queue.len(), 1);
    assert_eq!(app.queue[0].video_id, "b");
}

#[test]
fn volume_and_pause_keys_ask_the_player() {
    let mut app = test_app();
    assert!(matches!(handle_key(&mut app, key(KeyCode::Char('+'))).as_slice(), [Effect::VolumeUp]));
    assert!(matches!(handle_key(&mut app, key(KeyCode::Char('_'))).as_slice(), [Effect::VolumeDown]));
    assert!(matches!(handle_key(&mut app, key(KeyCode::Char(' '))).as_slice(), [Effect::TogglePause]));
    assert!(app.paused);
}

#[test]
fn the_wheel_scrolls_plain_lyrics_and_saturates_at_the_top() {
    let mut app = test_app();
    app.section = Section::Letra;
    app.lyrics = LyricsState::Plain("la la".to_string());
    handle_scroll(&mut app, 3);
    assert_eq!(app.ui.lyrics.scroll, 3);
    handle_scroll(&mut app, -10);
    assert_eq!(app.ui.lyrics.scroll, 0);

    app.section = Section::Ajuda;
    handle_scroll(&mut app, 2);
    assert_eq!(app.ui.help_scroll, 2);
}

#[test]
fn tab_toggles_the_focus() {
    let mut app = test_app();
    let start = app.focus;
    handle_key(&mut app, key(KeyCode::Tab));
    assert_ne!(app.focus, start);
    handle_key(&mut app, key(KeyCode::Tab));
    assert_eq!(app.focus, start);
}
