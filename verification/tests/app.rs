use ytmtui::app::{App, AuthenticationFlow, Effect, Focus, Msg, RepeatMode, SearchHit, Section};
use ytmtui::lyrics::LyricsState;
use ytmtui::models::{Artist, HomeSection, Playlist, SearchResults, Track};
use ytmtui::app::messages::client_error_message;
use ytmtui::provider::{AuthState, Capabilities, ProviderError, SignInAccount, SignInPreview};

fn test_app() -> App {
    App::with_provider("mock", "Mock Provider", Capabilities::all(), false)
}

fn track(id: &str) -> Track {
    Track { video_id: id.to_string(), title: format!("Track {id}"), ..Default::default() }
}

/// Applies the messages in order, putting requeued ones back at the end,
/// the way the event loop drains its channel.
fn drain(app: &mut App, messages: Vec<Msg>) -> Vec<Effect> {
    let mut pending: std::collections::VecDeque<Msg> = messages.into_iter().collect();
    let mut out = Vec::new();
    while let Some(msg) = pending.pop_front() {
        for effect in app.apply(msg) {
            match effect {
                Effect::Requeue(m) => pending.push_back(m),
                other => out.push(other),
            }
        }
    }
    out
}

fn queue_app() -> App {
    let mut app = test_app();
    app.section = Section::Fila;
    app.queue = vec![track("a"), track("b"), track("c"), track("d")];
    app.queue_index = Some(1);
    app.current = Some(track("b"));
    app
}

fn home_sections() -> Vec<HomeSection> {
    vec![
        HomeSection {
            title: "Quick picks".to_string(),
            items: vec![
                Playlist { browse_id: "VL1".to_string(), title: "First".to_string(), ..Default::default() },
                Playlist { browse_id: "VL2".to_string(), title: "Second".to_string(), ..Default::default() },
            ],
        },
        HomeSection {
            title: "Mixed for you".to_string(),
            items: vec![Playlist { browse_id: "VL3".to_string(), title: "Third".to_string(), ..Default::default() }],
        },
    ]
}

fn mixed_search_app() -> App {
    let mut app = test_app();
    app.search_mixed = true;
    app.songs = vec![
        Track { video_id: "s1".to_string(), title: "Song one".to_string(), ..Default::default() },
        Track { video_id: "s2".to_string(), title: "Song two".to_string(), ..Default::default() },
    ];
    app.artists = vec![Artist { browse_id: "UC1".to_string(), name: "Artist one".to_string(), ..Default::default() }];
    app.albums = vec![Playlist { browse_id: "MPRE1".to_string(), title: "Album one".to_string(), ..Default::default() }];
    app.playlists = vec![Playlist { browse_id: "VLPL1".to_string(), title: "Playlist one".to_string(), ..Default::default() }];
    app
}

fn preview(id: u64, index: u8, name: &str) -> SignInPreview {
    SignInPreview {
        id,
        method: "mock".to_string(),
        profile_label: None,
        accounts: vec![SignInAccount { index, name: name.to_string(), handle: None }],
        current_account_name: None,
    }
}

// --- queue ---

#[test]
fn removing_a_track_before_the_current_one_shifts_the_playing_index() {
    let mut app = queue_app();
    app.selected = Some(0);
    app.queue_remove_selected();
    assert_eq!(app.queue.len(), 3);
    assert_eq!(app.queue_index, Some(0), "current track followed its move");
    assert_eq!(app.queue[0].video_id, "b");
}

#[test]
fn the_playing_track_cannot_be_removed_from_the_queue() {
    let mut app = queue_app();
    app.selected = Some(1);
    app.queue_remove_selected();
    assert_eq!(app.queue.len(), 4, "queue unchanged");
    assert_eq!(app.queue_index, Some(1));
}

#[test]
fn removing_after_the_current_track_keeps_the_playing_index() {
    let mut app = queue_app();
    app.selected = Some(3);
    app.queue_remove_selected();
    assert_eq!(app.queue.len(), 3);
    assert_eq!(app.queue_index, Some(1));
    assert_eq!(app.selected, Some(2));
}

#[test]
fn moving_a_track_follows_selection_and_repoints_the_playing_index() {
    let mut app = queue_app();
    app.selected = Some(2);
    app.queue_move_selected(-1);
    assert_eq!(app.queue[1].video_id, "c");
    assert_eq!(app.queue[2].video_id, "b");
    assert_eq!(app.queue_index, Some(2), "playing track followed the swap");
    assert_eq!(app.selected, Some(1), "selection followed the move");

    app.selected = Some(0);
    app.queue_move_selected(-1);
    assert_eq!(app.queue[0].video_id, "a");
}

#[test]
fn clearing_the_queue_keeps_only_the_playing_track() {
    let mut app = queue_app();
    app.queue_clear();
    assert_eq!(app.queue.len(), 1);
    assert_eq!(app.queue[0].video_id, "b");
    assert_eq!(app.queue_index, Some(0));

    let mut stopped = queue_app();
    stopped.current = None;
    stopped.queue_clear();
    assert!(stopped.queue.is_empty());
    assert_eq!(stopped.queue_index, None);
}

#[test]
fn shuffle_visits_every_track_once_then_ends_when_repeat_is_off() {
    let mut app = test_app();
    app.queue = vec![track("a"), track("b"), track("c"), track("d")];
    app.shuffle = true;
    app.queue_index = Some(0);
    app.shuffle_played.push("a".to_string());

    let mut visited = vec!["a".to_string()];
    let mut idx = 0;
    while let Some(next) = app.compute_next(idx, false) {
        let id = app.queue[next].video_id.clone();
        assert!(!visited.contains(&id), "shuffle must not repeat a track within a cycle");
        visited.push(id.clone());
        app.shuffle_played.push(id);
        idx = next;
    }
    assert_eq!(visited.len(), 4, "every track played exactly once");
}

#[test]
fn shuffle_starts_a_new_cycle_when_repeat_all_wraps() {
    let mut app = test_app();
    app.queue = vec![track("a"), track("b"), track("c")];
    app.shuffle = true;
    for id in ["a", "b", "c"] {
        app.shuffle_played.push(id.to_string());
    }
    let next = app.compute_next(1, true);
    assert!(next.is_some(), "repeat all recycles the queue");
    assert_ne!(next, Some(1), "never repeats the current track back-to-back");
    assert!(app.shuffle_played.is_empty(), "a new cycle starts empty");
}

#[test]
fn in_order_the_next_entry_follows_and_wraps_only_when_repeating() {
    let mut app = queue_app();
    assert_eq!(app.compute_next(1, false), Some(2));
    assert_eq!(app.compute_next(3, false), None);
    assert_eq!(app.compute_next(3, true), Some(0));
    app.repeat = RepeatMode::Off;
    app.cycle_repeat();
    assert_eq!(app.repeat, RepeatMode::All);
    assert_eq!(app.status, "🔁 Repetição: todos.");
    app.toggle_shuffle();
    assert!(app.shuffle);
    assert_eq!(app.shuffle_played, vec!["b".to_string()], "the playing track counts as played");
    assert_eq!(app.status, "🔀 Aleatório ativado.");
}

#[test]
fn enqueue_in_mixed_results_rejects_non_song_rows() {
    let mut app = mixed_search_app();
    app.section = Section::Buscar;
    app.selected = Some(3);
    app.enqueue_selected();
    assert!(app.queue.is_empty(), "albums must not be enqueued as tracks");
    assert!(app.status.contains("músicas"), "explains why: {}", app.status);
}

#[test]
fn mod_enqueue_in_mixed_results_rejects_non_song_rows() {
    enqueue_in_mixed_results_rejects_non_song_rows();
}

#[test]
fn app_enqueue_in_mixed_results_rejects_non_song_rows() {
    enqueue_in_mixed_results_rejects_non_song_rows();
}

#[test]
fn enqueueing_a_recent_home_track_does_not_interrupt_playback() {
    let playing = Track { video_id: "playing".into(), title: "Playing".into(), ..Default::default() };
    let recent = Track { video_id: "recent".into(), title: "Recent".into(), ..Default::default() };
    let mut app = test_app();
    app.section = Section::Inicio;
    app.recent = vec![recent];
    app.queue = vec![playing.clone()];
    app.queue_index = Some(0);
    app.current = Some(playing);
    app.selected = Some(0);

    app.enqueue_selected();

    assert_eq!(app.queue.iter().map(|t| t.video_id.as_str()).collect::<Vec<_>>(), vec!["playing", "recent"]);
    assert_eq!(app.queue_index, Some(0));
    assert_eq!(app.current.as_ref().map(|t| t.video_id.as_str()), Some("playing"));
    assert!(app.status.contains("adicionada à fila"));
    assert_eq!(app.status, "➕ \"Recent\" adicionada à fila (2 na fila).");
}

// --- search and playback ---

fn search_hit_at_resolves_groups_in_display_order() {
    let app = mixed_search_app();
    assert_eq!(app.search_item_count(), 5);
    assert!(matches!(app.search_hit_at(0), Some(SearchHit::Song(0))));
    assert!(matches!(app.search_hit_at(1), Some(SearchHit::Song(1))));
    assert!(matches!(app.search_hit_at(2), Some(SearchHit::Artist(a)) if a.browse_id == "UC1"));
    assert!(matches!(app.search_hit_at(3), Some(SearchHit::Album(p)) if p.browse_id == "MPRE1"));
    assert!(matches!(app.search_hit_at(4), Some(SearchHit::Playlist(p)) if p.browse_id == "VLPL1"));
    assert!(app.search_hit_at(5).is_none());
}

#[test]
fn mod_search_hit_at_resolves_groups_in_display_order() {
    search_hit_at_resolves_groups_in_display_order();
}

#[test]
fn app_search_hit_at_resolves_groups_in_display_order() {
    search_hit_at_resolves_groups_in_display_order();
}

fn entering_a_song_in_mixed_results_seeds_a_radio_queue() {
    let mut app = mixed_search_app();
    app.section = Section::Buscar;
    app.selected = Some(1);
    assert!(app.prepare_selection_for_playback().0, "songs start playback directly");
    assert_eq!(app.queue.len(), 1);
    assert_eq!(app.queue[0].video_id, "s2");
    assert_eq!(app.queue_index, Some(0));
    assert_eq!(app.pending_radio_seed.as_deref(), Some("s2"));
}

#[test]
fn mod_entering_a_song_in_mixed_results_seeds_a_radio_queue() {
    entering_a_song_in_mixed_results_seeds_a_radio_queue();
}

#[test]
fn app_entering_a_song_in_mixed_results_seeds_a_radio_queue() {
    entering_a_song_in_mixed_results_seeds_a_radio_queue();
}

fn related_tracks_append_behind_the_playing_seed_without_duplicates() {
    let seed = Track { video_id: "s2".to_string(), title: "Song two".to_string(), ..Default::default() };
    let mut app = test_app();
    app.queue = vec![seed.clone()];
    app.queue_index = Some(0);
    app.current = Some(seed.clone());

    let radio = vec![
        seed.clone(),
        Track { video_id: "r1".to_string(), ..Default::default() },
        Track { video_id: "r2".to_string(), ..Default::default() },
    ];
    assert_eq!(app.append_related("s2", radio.clone()), 2);
    assert_eq!(app.queue.len(), 3);
    assert_eq!(app.queue_index, Some(0), "playback position untouched");
    assert_eq!(app.next_index, Some(1), "next track recomputed");

    app.current = Some(Track { video_id: "other".to_string(), ..Default::default() });
    assert_eq!(app.append_related("s2", radio), 0);
    assert_eq!(app.queue.len(), 3);
}

#[test]
fn mod_related_tracks_append_behind_the_playing_seed_without_duplicates() {
    related_tracks_append_behind_the_playing_seed_without_duplicates();
}

#[test]
fn app_related_tracks_append_behind_the_playing_seed_without_duplicates() {
    related_tracks_append_behind_the_playing_seed_without_duplicates();
}

#[test]
fn playing_a_search_song_asks_for_its_audio_and_a_radio() {
    let mut app = mixed_search_app();
    app.section = Section::Buscar;
    app.selected = Some(0);
    let effects = app.play_selected();
    assert_eq!(effects.len(), 2);
    assert!(matches!(&effects[0], Effect::Play { track, .. } if track.video_id == "s1"));
    assert!(matches!(&effects[1], Effect::Related { seed } if seed == "s1"));
    assert_eq!(app.current.as_ref().map(|t| t.video_id.as_str()), Some("s1"));
    assert!(app.loading_audio);
    assert_eq!(app.status, "Baixando \"Song one\"...");
    assert_eq!(app.recent.len(), 1);
    assert!(app.pending_radio_seed.is_none());
}

#[test]
fn stop_clears_the_now_playing_state_but_keeps_the_queue() {
    let mut app = test_app();
    app.current = Some(Track::default());
    app.loading_audio = true;
    app.lyrics = LyricsState::Plain("la la".to_string());
    app.has_artwork = true;
    app.queue = vec![Track::default(), Track::default()];
    app.queue_index = Some(1);

    let effect = app.stop_playback();

    assert!(matches!(effect, Effect::StopPlayer));
    assert!(app.current.is_none(), "no track shown as playing");
    assert!(!app.loading_audio);
    assert!(!app.has_artwork, "cover cleared");
    assert!(app.clear_screen, "graphics leftovers get erased");
    assert!(matches!(app.lyrics, LyricsState::Pending));
    assert_eq!(app.queue.len(), 2, "queue survives for a later resume");

    let mut idle = test_app();
    idle.stop_playback();
    assert!(!idle.clear_screen);
}

#[test]
fn finishing_the_queue_clears_the_album_art() {
    let mut app = test_app();
    app.has_artwork = true;
    app.current = Some(Track::default());
    app.queue = vec![Track::default()];
    app.queue_index = Some(0);

    let effects = drain(&mut app, vec![Msg::RadioTracks(Vec::new())]);

    assert!(app.current.is_none(), "playback ended");
    assert!(!app.has_artwork, "stale cover must not outlive playback");
    assert!(matches!(effects.as_slice(), [Effect::StopPlayer]));
}

#[test]
fn skipping_moves_through_the_queue_and_wraps() {
    let mut app = queue_app();
    let e = app.next_track();
    assert!(matches!(e, Some(Effect::Play { ref track, .. }) if track.video_id == "c"));
    assert_eq!(app.queue_index, Some(2));
    app.prev_track();
    assert_eq!(app.queue_index, Some(1));
    app.queue_index = Some(0);
    app.prev_track();
    assert_eq!(app.queue_index, Some(3), "back from the first wraps to the last");
    app.next_track();
    assert_eq!(app.queue_index, Some(0), "a manual skip always wraps");
}

#[test]
fn the_end_of_the_last_track_asks_for_a_radio_with_autoplay() {
    let mut app = queue_app();
    app.queue_index = Some(3);
    app.current = Some(track("d"));
    app.next_index = None;
    let e = app.advance_auto();
    assert!(matches!(e, Some(Effect::Radio { ref seed }) if seed == "d"));
    assert_eq!(app.status, "📻 Fila concluída — carregando rádio...");

    app.autoplay = false;
    let e = app.advance_auto();
    assert!(matches!(e, Some(Effect::StopPlayer)));
    assert!(app.current.is_none());
    assert_eq!(app.status, "Fila concluída.");
}

// --- Home ---

fn home_item_count_sums_across_sections_excluding_headers() {
    let mut app = test_app();
    app.home = home_sections();
    assert_eq!(app.home_item_count(), 3);
}

#[test]
fn mod_home_item_count_sums_across_sections_excluding_headers() {
    home_item_count_sums_across_sections_excluding_headers();
}

#[test]
fn app_home_item_count_sums_across_sections_excluding_headers() {
    home_item_count_sums_across_sections_excluding_headers();
}

fn home_total_count_puts_recent_tracks_before_recommendations() {
    let mut app = test_app();
    app.home = home_sections();
    app.recent = vec![
        Track { video_id: "r1".to_string(), ..Default::default() },
        Track { video_id: "r2".to_string(), ..Default::default() },
    ];
    assert_eq!(app.home_total_count(), 5);
    assert_eq!(app.home_item_at(5 - app.recent.len() - 1).map(|p| p.browse_id.as_str()), Some("VL3"));
}

#[test]
fn mod_home_total_count_puts_recent_tracks_before_recommendations() {
    home_total_count_puts_recent_tracks_before_recommendations();
}

#[test]
fn app_home_total_count_puts_recent_tracks_before_recommendations() {
    home_total_count_puts_recent_tracks_before_recommendations();
}

fn home_item_at_flattens_across_section_boundaries() {
    let mut app = test_app();
    app.home = home_sections();
    assert_eq!(app.home_item_at(0).map(|p| p.browse_id.as_str()), Some("VL1"));
    assert_eq!(app.home_item_at(1).map(|p| p.browse_id.as_str()), Some("VL2"));
    assert_eq!(app.home_item_at(2).map(|p| p.browse_id.as_str()), Some("VL3"));
    assert!(app.home_item_at(3).is_none());
}

#[test]
fn mod_home_item_at_flattens_across_section_boundaries() {
    home_item_at_flattens_across_section_boundaries();
}

#[test]
fn app_home_item_at_flattens_across_section_boundaries() {
    home_item_at_flattens_across_section_boundaries();
}

fn home_flat_index_of_finds_items_regardless_of_section() {
    let mut app = test_app();
    app.home = home_sections();
    assert_eq!(app.home_flat_index_of("VL1"), Some(0));
    assert_eq!(app.home_flat_index_of("VL3"), Some(2));
    assert_eq!(app.home_flat_index_of("missing"), None);
}

#[test]
fn mod_home_flat_index_of_finds_items_regardless_of_section() {
    home_flat_index_of_finds_items_regardless_of_section();
}

#[test]
fn app_home_flat_index_of_finds_items_regardless_of_section() {
    home_flat_index_of_finds_items_regardless_of_section();
}

#[test]
fn entering_a_recent_home_card_preserves_history_order_and_selected_index() {
    let mut app = test_app();
    app.section = Section::Inicio;
    app.recent = (1..=3)
        .map(|i| Track { video_id: format!("r{i}"), title: format!("Recent {i}"), ..Default::default() })
        .collect();
    app.selected = Some(1);

    app.open_selected_home();

    assert_eq!(app.queue.iter().map(|t| t.video_id.as_str()).collect::<Vec<_>>(), vec!["r1", "r2", "r3"]);
    assert_eq!(app.queue_index, Some(1));
    assert_eq!(app.current.as_ref().map(|t| t.video_id.as_str()), Some("r2"));
}

fn moving_the_home_selection_marks_the_change_and_kicks_the_fast_tier() {
    let mut app = test_app();
    app.section = Section::Inicio;
    app.home = home_sections();
    app.selected = Some(0);
    assert!(!app.ui.anim.selection_ever_changed());
    app.move_home(ytmtui::home::HomeDirection::Right);
    assert_eq!(app.selected, Some(1));
    assert!(app.ui.anim.selection_ever_changed());
    assert!(app.ui.anim.animate_until.is_some());
}

#[test]
fn mod_moving_the_home_selection_marks_the_change_and_kicks_the_fast_tier() {
    moving_the_home_selection_marks_the_change_and_kicks_the_fast_tier();
}

#[test]
fn animation_moving_the_home_selection_marks_the_change_and_kicks_the_fast_tier() {
    moving_the_home_selection_marks_the_change_and_kicks_the_fast_tier();
}

// --- navigation ---

fn number_keys_jump_to_sections() {
    let mut app = test_app();
    app.jump_to_section(5);
    assert_eq!(app.section, Section::Fila);
    assert_eq!(app.sidebar_index, 5);
    assert_eq!(app.focus, Focus::Main);
    app.jump_to_section(99);
    assert_eq!(app.section, Section::Fila);
}

#[test]
fn mod_number_keys_jump_to_sections() {
    number_keys_jump_to_sections();
}

#[test]
fn navigation_number_keys_jump_to_sections() {
    number_keys_jump_to_sections();
}

fn page_selection_saturates_at_the_list_edges() {
    let mut app = test_app();
    app.section = Section::Fila;
    app.queue = vec![track("a"), track("b"), track("c")];
    app.selected = Some(1);
    app.page_selection(10);
    assert_eq!(app.selected, Some(2), "clamps to the end");
    app.page_selection(-10);
    assert_eq!(app.selected, Some(0), "clamps to the start");
}

#[test]
fn mod_page_selection_saturates_at_the_list_edges() {
    page_selection_saturates_at_the_list_edges();
}

#[test]
fn navigation_page_selection_saturates_at_the_list_edges() {
    page_selection_saturates_at_the_list_edges();
}

fn move_selection_marks_the_change_only_in_the_home_section() {
    let mut app = test_app();
    app.section = Section::Fila;
    app.queue = vec![track("a"), track("b")];
    app.move_selection(1);
    assert!(!app.ui.anim.selection_ever_changed(), "the queue section has no card-reveal transition to drive");
}

#[test]
fn mod_move_selection_marks_the_change_only_in_the_home_section() {
    move_selection_marks_the_change_only_in_the_home_section();
}

#[test]
fn navigation_move_selection_marks_the_change_only_in_the_home_section() {
    move_selection_marks_the_change_only_in_the_home_section();
}

#[test]
fn selection_and_sidebar_wrap_at_both_ends() {
    let mut app = test_app();
    app.section = Section::Fila;
    app.queue = vec![track("a"), track("b"), track("c")];
    app.selected = Some(0);
    app.move_selection(-1);
    assert_eq!(app.selected, Some(2));
    app.move_selection(1);
    assert_eq!(app.selected, Some(0));
    app.select_last();
    assert_eq!(app.selected, Some(2));
    app.select_first();
    assert_eq!(app.selected, Some(0));
    app.sidebar_index = 0;
    app.move_sidebar(-1);
    assert_eq!(app.sidebar_index, 7);
    assert_eq!(app.section, Section::Ajuda);
    app.move_sidebar(1);
    assert_eq!(app.section, Section::Inicio);
}

// --- messages ---

fn background_home_refresh_preserves_selection_by_browse_id() {
    let mut app = test_app();
    app.section = Section::Inicio;
    app.home = vec![HomeSection {
        title: "Quick picks".to_string(),
        items: vec![
            Playlist { browse_id: "VL1".to_string(), ..Default::default() },
            Playlist { browse_id: "VL2".to_string(), ..Default::default() },
        ],
    }];
    app.selected = Some(1);
    drain(&mut app, vec![Msg::HomeSections(vec![HomeSection {
        title: "Quick picks".to_string(),
        items: vec![
            Playlist { browse_id: "VL2".to_string(), ..Default::default() },
            Playlist { browse_id: "VL1".to_string(), ..Default::default() },
        ],
    }])]);
    assert_eq!(app.selected, Some(0), "selection follows VL2 to its new position");
}

#[test]
fn mod_background_home_refresh_preserves_selection_by_browse_id() {
    background_home_refresh_preserves_selection_by_browse_id();
}

#[test]
fn app_background_home_refresh_preserves_selection_by_browse_id() {
    background_home_refresh_preserves_selection_by_browse_id();
}

fn background_home_refresh_clamps_when_the_selected_item_is_gone() {
    let mut app = test_app();
    app.section = Section::Inicio;
    app.home = vec![HomeSection {
        title: "Quick picks".to_string(),
        items: vec![
            Playlist { browse_id: "VL1".to_string(), ..Default::default() },
            Playlist { browse_id: "VL2".to_string(), ..Default::default() },
        ],
    }];
    app.selected = Some(1);
    drain(&mut app, vec![Msg::HomeSections(vec![HomeSection {
        title: "Quick picks".to_string(),
        items: vec![Playlist { browse_id: "VL1".to_string(), ..Default::default() }],
    }])]);
    assert_eq!(app.selected, Some(0), "clamps to the nearest valid index instead of resetting to the top");
}

#[test]
fn mod_background_home_refresh_clamps_when_the_selected_item_is_gone() {
    background_home_refresh_clamps_when_the_selected_item_is_gone();
}

#[test]
fn app_background_home_refresh_clamps_when_the_selected_item_is_gone() {
    background_home_refresh_clamps_when_the_selected_item_is_gone();
}

fn background_library_refresh_preserves_selection_by_browse_id() {
    let mut app = test_app();
    app.section = Section::Biblioteca;
    app.library = vec![
        Playlist { browse_id: "L1".to_string(), ..Default::default() },
        Playlist { browse_id: "L2".to_string(), ..Default::default() },
    ];
    app.selected = Some(1);
    drain(&mut app, vec![Msg::LibraryPlaylists(vec![
        Playlist { browse_id: "L2".to_string(), ..Default::default() },
        Playlist { browse_id: "L1".to_string(), ..Default::default() },
    ])]);
    assert_eq!(app.selected, Some(0), "selection follows L2 to its new position");
}

#[test]
fn mod_background_library_refresh_preserves_selection_by_browse_id() {
    background_library_refresh_preserves_selection_by_browse_id();
}

#[test]
fn app_background_library_refresh_preserves_selection_by_browse_id() {
    background_library_refresh_preserves_selection_by_browse_id();
}

fn first_home_load_still_selects_the_top_item() {
    let mut app = test_app();
    app.section = Section::Inicio;
    assert!(app.home.is_empty());
    drain(&mut app, vec![Msg::HomeSections(vec![HomeSection {
        title: "Quick picks".to_string(),
        items: vec![Playlist { browse_id: "VL1".to_string(), ..Default::default() }],
    }])]);
    assert_eq!(app.selected, Some(0), "the very first load still selects the top item");
}

#[test]
fn mod_first_home_load_still_selects_the_top_item() {
    first_home_load_still_selects_the_top_item();
}

#[test]
fn app_first_home_load_still_selects_the_top_item() {
    first_home_load_still_selects_the_top_item();
}

#[test]
fn arriving_search_results_move_the_section_and_the_sidebar_together() {
    let mut app = test_app();
    app.section = Section::Fila;
    app.sidebar_index = Section::Fila.index();
    drain(&mut app, vec![Msg::SearchResults(SearchResults::default())]);
    assert_eq!(app.section, Section::Buscar);
    assert_eq!(app.sidebar_index, Section::Buscar.index());
    assert_eq!(app.status, "0 músicas, 0 artistas, 0 álbuns, 0 playlists.");
}

fn concurrent_loads_keep_the_spinner_until_the_last_one_finishes() {
    let mut app = test_app();
    app.begin_task();
    app.begin_task();
    drain(&mut app, vec![Msg::HomeSections(Vec::new())]);
    assert!(app.is_loading(), "first response must not hide the spinner while the second load is in flight");
    drain(&mut app, vec![Msg::LibraryPlaylists(Vec::new())]);
    assert!(!app.is_loading());
}

#[test]
fn mod_concurrent_loads_keep_the_spinner_until_the_last_one_finishes() {
    concurrent_loads_keep_the_spinner_until_the_last_one_finishes();
}

#[test]
fn tasks_concurrent_loads_keep_the_spinner_until_the_last_one_finishes() {
    concurrent_loads_keep_the_spinner_until_the_last_one_finishes();
}

fn stray_errors_never_underflow_the_busy_counter() {
    let mut app = test_app();
    drain(&mut app, vec![Msg::Error("boom".to_string())]);
    assert!(!app.is_loading());
    assert_eq!(app.status, "⚠ boom");
    app.begin_task();
    assert!(app.is_loading());
}

#[test]
fn mod_stray_errors_never_underflow_the_busy_counter() {
    stray_errors_never_underflow_the_busy_counter();
}

#[test]
fn tasks_stray_errors_never_underflow_the_busy_counter() {
    stray_errors_never_underflow_the_busy_counter();
}

fn background_library_refresh_does_not_clobber_the_status_bar() {
    let mut app = test_app();
    app.library = vec![Playlist { browse_id: "L1".to_string(), ..Default::default() }];
    app.status = "▶ Tocando: Song — Artist".to_string();
    drain(&mut app, vec![Msg::LibraryPlaylists(vec![Playlist { browse_id: "L1".to_string(), ..Default::default() }])]);
    assert_eq!(app.status, "▶ Tocando: Song — Artist", "periodic refresh must not overwrite what the user is reading");
}

#[test]
fn mod_background_library_refresh_does_not_clobber_the_status_bar() {
    background_library_refresh_does_not_clobber_the_status_bar();
}

#[test]
fn tasks_background_library_refresh_does_not_clobber_the_status_bar() {
    background_library_refresh_does_not_clobber_the_status_bar();
}

#[test]
fn home_failed_preserves_cached_shelves_and_clears_the_spinner() {
    let mut app = test_app();
    app.home = home_sections();
    app.begin_task();
    drain(&mut app, vec![Msg::HomeFailed("offline".to_string())]);
    assert_eq!(app.home.len(), 2, "cached shelves stay");
    assert_eq!(app.home_error.as_deref(), Some("offline"));
    assert!(!app.is_loading());
}

#[test]
fn home_sections_success_clears_a_previous_error() {
    let mut app = test_app();
    app.home_error = Some("offline".to_string());
    drain(&mut app, vec![Msg::HomeSections(home_sections())]);
    assert!(app.home_error.is_none());
}

#[test]
fn load_home_without_the_home_capability_creates_no_task() {
    let mut caps = Capabilities::all();
    caps.home = false;
    let mut app = App::with_provider("mock", "Mock Provider", caps, false);
    assert!(app.load_home().is_none());
    assert!(!app.is_loading());
}

fn stale_session_payloads_cannot_overwrite_a_newly_activated_account() {
    let mut app = test_app();
    app.session_generation = 2;
    app.authentication = AuthState::Authenticated;
    app.account_name = Some("New Account".to_string());
    app.home = vec![HomeSection { title: "New home".to_string(), items: vec![] }];
    app.library = vec![Playlist { title: "New library".to_string(), ..Default::default() }];
    drain(&mut app, vec![
        Msg::HomeSectionsForSession { session_generation: 1, sections: vec![] },
        Msg::LibraryPlaylistsForSession { session_generation: 1, playlists: vec![] },
        Msg::AccountNameForSession { session_generation: 1, name: Some("Old Account".to_string()) },
        Msg::SessionExpiredForSession { session_generation: 1 },
    ]);
    assert_eq!(app.authentication, AuthState::Authenticated);
    assert_eq!(app.account_name.as_deref(), Some("New Account"));
    assert_eq!(app.home[0].title, "New home");
    assert_eq!(app.library[0].title, "New library");
}

#[test]
fn mod_stale_session_payloads_cannot_overwrite_a_newly_activated_account() {
    stale_session_payloads_cannot_overwrite_a_newly_activated_account();
}

#[test]
fn authentication_stale_session_payloads_cannot_overwrite_a_newly_activated_account() {
    stale_session_payloads_cannot_overwrite_a_newly_activated_account();
}

#[test]
fn expiry_of_the_current_session_signs_out_and_drops_the_library() {
    let mut app = test_app();
    app.authentication = AuthState::Authenticated;
    app.library = vec![Playlist::default()];
    drain(&mut app, vec![Msg::SessionExpiredForSession { session_generation: 0 }]);
    assert_eq!(app.authentication, AuthState::Expired);
    assert!(app.library.is_empty());
    assert!(app.status.starts_with("Session expired."));
}

#[test]
fn replies_for_a_skipped_track_are_dropped() {
    let mut app = queue_app();
    let effects = drain(&mut app, vec![
        Msg::AudioReady { video_id: "a".to_string(), path: "/tmp/a".to_string() },
        Msg::Lyrics { video_id: "a".to_string(), lyrics: None },
        Msg::ArtworkBytes { video_id: "a".to_string(), bytes: vec![1] },
    ]);
    assert!(effects.is_empty());
    assert!(matches!(app.lyrics, LyricsState::Pending));
    let effects = drain(&mut app, vec![Msg::AudioReady { video_id: "b".to_string(), path: "/tmp/b".to_string() }]);
    assert!(matches!(effects.as_slice(), [Effect::PlayFile { path }] if path == "/tmp/b"));
    assert_eq!(app.status, "▶ Tocando: Track b — ");
}

// --- animation ---

fn animation_is_only_needed_while_loading_or_playing() {
    let mut app = test_app();
    assert!(!app.needs_animation(), "idle app needs no animation");
    app.begin_task();
    assert!(app.needs_animation(), "loading shows the spinner");
    app.finish_task();
    app.current = Some(Track::default());
    assert!(app.needs_animation(), "playback progress animates");
}

#[test]
fn mod_animation_is_only_needed_while_loading_or_playing() {
    animation_is_only_needed_while_loading_or_playing();
}

#[test]
fn app_animation_is_only_needed_while_loading_or_playing() {
    animation_is_only_needed_while_loading_or_playing();
}

#[test]
fn animation_animation_is_only_needed_while_loading_or_playing() {
    animation_is_only_needed_while_loading_or_playing();
}

fn needs_fast_animation_is_true_while_animating_even_with_nothing_playing() {
    let mut app = test_app();
    app.ui.splash_running = false;
    app.section = Section::Fila;
    assert!(!app.needs_fast_animation());
    app.ui.anim.kick(5000);
    assert!(app.needs_fast_animation());
}

#[test]
fn mod_needs_fast_animation_is_true_while_animating_even_with_nothing_playing() {
    needs_fast_animation_is_true_while_animating_even_with_nothing_playing();
}

#[test]
fn animation_needs_fast_animation_is_true_while_animating_even_with_nothing_playing() {
    needs_fast_animation_is_true_while_animating_even_with_nothing_playing();
}

fn reduced_motion_drops_the_fast_tier_even_while_the_visualizer_would_animate() {
    let mut app = test_app();
    app.ui.splash_running = false;
    app.section = Section::Inicio;
    app.current = Some(Track::default());
    assert!(app.needs_fast_animation());
    app.ui.anim.set_reduced_motion(true);
    assert!(!app.needs_fast_animation());
    assert!(app.needs_animation());
}

#[test]
fn mod_reduced_motion_drops_the_fast_tier_even_while_the_visualizer_would_animate() {
    reduced_motion_drops_the_fast_tier_even_while_the_visualizer_would_animate();
}

#[test]
fn animation_reduced_motion_drops_the_fast_tier_even_while_the_visualizer_would_animate() {
    reduced_motion_drops_the_fast_tier_even_while_the_visualizer_would_animate();
}

#[test]
fn kick_animation_is_a_no_op_under_reduced_motion() {
    let mut app = test_app();
    app.ui.anim.set_reduced_motion(true);
    app.ui.anim.kick(500);
    assert!(!app.ui.anim.animating());
}

#[test]
fn kick_animation_scales_the_window_by_animation_speed() {
    let mut app = test_app();
    app.ui.anim.kick_at(1000, 0);
    assert_eq!(app.ui.anim.animate_until, Some(1000));
    let mut slow = test_app();
    slow.ui.anim.set_speed(ytmtui::config::AnimationSpeed::Slow);
    slow.ui.anim.kick_at(1000, 0);
    assert_eq!(slow.ui.anim.animate_until, Some(1600));
}

#[test]
fn a_tick_advances_the_spinner_and_the_synced_lyric() {
    let mut app = queue_app();
    app.begin_task();
    app.lyrics = LyricsState::Synced {
        lines: vec![
            ytmtui::models::LyricLine { text: "one".to_string(), start_ms: 0, end_ms: 1000 },
            ytmtui::models::LyricLine { text: "two".to_string(), start_ms: 1000, end_ms: 2000 },
        ],
        active: None,
    };
    let effects = app.tick(false, 1500, false);
    assert!(effects.is_empty());
    assert_eq!(app.spinner_frame, 1);
    assert!(matches!(app.lyrics, LyricsState::Synced { active: Some(1), .. }));
    let effects = app.tick(false, 0, true);
    assert!(matches!(effects.as_slice(), [Effect::LoadHome { session_generation: 0 }]));
}

// --- authentication ---

fn test_preview_helper_installs_the_first_account_selection() {
    let mut app = test_app();
    app.authentication_flow = AuthenticationFlow::AwaitingConfirmation {
        operation_id: 0,
        preview: preview(7, 3, "Preview Account"),
        selected: 0,
    };
    let (p, selected) = app.sign_in_preview().expect("preview installed");
    assert_eq!(p.id, 7);
    assert_eq!(selected, 0);
}

#[test]
fn mod_test_preview_helper_installs_the_first_account_selection() {
    test_preview_helper_installs_the_first_account_selection();
}

#[test]
fn authentication_test_preview_helper_installs_the_first_account_selection() {
    test_preview_helper_installs_the_first_account_selection();
}

fn stale_sign_in_messages_cannot_publish_or_cancel_another_operation() {
    let mut app = test_app();
    app.authentication = AuthState::Authenticated;
    app.account_name = Some("Existing Account".to_string());
    app.authentication_flow = AuthenticationFlow::Activating { operation_id: 4, preview_id: 7 };
    drain(&mut app, vec![
        Msg::SignedIn {
            operation_id: 99,
            preview_id: 7,
            method: "firefox".to_string(),
            credentials_path: Some("wrong-cookies.txt".to_string()),
            account_name: "Wrong Account".to_string(),
        },
        Msg::SignInFailed { operation_id: 99, message: "stale failure".to_string(), preview_id: Some(7) },
    ]);
    assert!(matches!(app.authentication_flow, AuthenticationFlow::Activating { operation_id: 4, preview_id: 7 }));
    assert_eq!(app.authentication, AuthState::Authenticated);
    assert_eq!(app.account_name.as_deref(), Some("Existing Account"));
    assert_ne!(app.cookies.as_deref(), Some("wrong-cookies.txt"));
}

#[test]
fn mod_stale_sign_in_messages_cannot_publish_or_cancel_another_operation() {
    stale_sign_in_messages_cannot_publish_or_cancel_another_operation();
}

#[test]
fn authentication_stale_sign_in_messages_cannot_publish_or_cancel_another_operation() {
    stale_sign_in_messages_cannot_publish_or_cancel_another_operation();
}

#[test]
fn a_session_expiry_queued_before_sign_in_cannot_expire_the_new_account() {
    let mut app = test_app();
    app.session_generation = 1;
    app.authentication_flow = AuthenticationFlow::Activating { operation_id: 4, preview_id: 7 };
    drain(&mut app, vec![
        Msg::SessionExpiredForSession { session_generation: 0 },
        Msg::SignedIn {
            operation_id: 4,
            preview_id: 7,
            method: "firefox".to_string(),
            credentials_path: None,
            account_name: "New Account".to_string(),
        },
    ]);
    assert_eq!(app.authentication, AuthState::Authenticated);
    assert_eq!(app.account_name.as_deref(), Some("New Account"));
}

#[test]
fn confirming_sign_in_retires_the_previous_session_before_activation_runs() {
    let mut app = test_app();
    app.authentication_flow = AuthenticationFlow::AwaitingConfirmation {
        operation_id: 0,
        preview: preview(7, 0, "New Account"),
        selected: 0,
    };
    let effect = app.confirm_sign_in();
    assert_eq!(app.session_generation, 1);
    assert!(matches!(effect, Some(Effect::ActivateSignIn { operation_id: 0, preview_id: 7, account_index: 0 })));
}

#[test]
fn the_sign_in_workflow_runs_from_preparation_to_an_active_account() {
    let mut app = test_app();
    let effect = app.prepare_sign_in();
    assert!(matches!(effect, Some(Effect::PrepareSignIn { operation_id: 1 })));
    assert_eq!(app.status, "Preparando conexão com Mock Provider…");
    app.request_quit();
    assert!(app.running, "a sign-in in flight blocks quitting");
    drain(&mut app, vec![Msg::SignInPrepared { operation_id: 1, preview: preview(9, 2, "Someone") }]);
    assert!(matches!(app.sign_in_preview(), Some((p, 0)) if p.id == 9));
    app.select_next_sign_in_account();
    assert!(matches!(app.sign_in_preview(), Some((_, 0))), "one account wraps onto itself");
    app.confirm_sign_in();
    let effects = drain(&mut app, vec![Msg::SignedIn {
        operation_id: 1,
        preview_id: 9,
        method: "firefox".to_string(),
        credentials_path: Some("/tmp/cookies.txt".to_string()),
        account_name: "Someone".to_string(),
    }]);
    assert_eq!(app.authentication, AuthState::Authenticated);
    assert_eq!(app.cookies.as_deref(), Some("/tmp/cookies.txt"));
    assert_eq!(effects.len(), 3);
    assert_eq!(app.status, "✔ Conectado via firefox. Carregando suas músicas…");
    app.request_quit();
    assert!(!app.running);
}

// --- preferences ---

use ytmtui::app::preferences::SettingRow;

fn every_row_round_trips_through_next_and_previous() {
    for row in SettingRow::all() {
        let mut app = test_app();
        let before = app.setting_value(row);
        app.step_setting(row, 1);
        app.step_setting(row, -1);
        assert_eq!(app.setting_value(row), before, "{} did not round-trip", row.label());
    }
}

#[test]
fn every_row_round_trips_through_next_and_previous_all_rows() {
    every_row_round_trips_through_next_and_previous();
}

#[test]
fn every_row_actually_changes_when_stepped() {
    for row in SettingRow::all() {
        let mut app = test_app();
        let before = app.setting_value(row);
        app.step_setting(row, 1);
        assert_ne!(app.setting_value(row), before, "{} does nothing when stepped", row.label());
    }
}

#[test]
fn stepping_a_row_all_the_way_around_returns_to_the_start() {
    let mut app = test_app();
    let start = app.setting_value(SettingRow::Visualizer);
    for _ in 0..3 {
        app.step_setting(SettingRow::Visualizer, 1);
    }
    assert_eq!(app.setting_value(SettingRow::Visualizer), start);
}

#[test]
fn reduced_motion_and_splash_are_independent_toggles() {
    let mut app = test_app();
    app.splash_enabled = false;
    app.step_setting(SettingRow::Splash, 1);
    assert_eq!(app.setting_value(SettingRow::Splash).as_deref(), Some("sim"));
    assert_eq!(app.setting_value(SettingRow::ReducedMotion).as_deref(), Some("não"), "toggling one must not move the other");
}

#[test]
fn the_sync_interval_walks_a_fixed_ladder() {
    let mut app = test_app();
    app.sync_interval_secs = 60;
    app.step_setting(SettingRow::SyncInterval, 1);
    assert_eq!(app.sync_interval_secs, 120);
    app.step_setting(SettingRow::SyncInterval, -1);
    assert_eq!(app.sync_interval_secs, 60);
    app.step_setting(SettingRow::SyncInterval, -1);
    assert_eq!(app.sync_interval_secs, 900);
}

#[test]
fn an_unrecognized_sync_interval_lands_on_a_real_step() {
    let mut app = test_app();
    app.sync_interval_secs = 437;
    app.step_setting(SettingRow::SyncInterval, 1);
    assert!(ytmtui::app::preferences::SYNC_STEPS.contains(&app.sync_interval_secs));
}

#[test]
fn turning_off_the_artwork_drops_the_cover_already_on_screen() {
    let mut app = test_app();
    app.artwork_mode = ytmtui::config::ArtworkMode::HalfBlocks;
    app.has_artwork = true;
    let effects = app.step_setting(SettingRow::Artwork, 1);
    assert_eq!(app.artwork_mode, ytmtui::config::ArtworkMode::Off);
    assert!(!app.has_artwork, "the setting must visibly take effect, not just change a flag");
    assert!(matches!(effects.as_slice(), [Effect::ApplyArtworkMode, Effect::SaveConfig]));
}

// --- playback edges ---

fn finishing_the_queue_clears_the_album_art_body() {
    let mut app = test_app();
    app.has_artwork = true;
    app.current = Some(Track::default());
    app.queue = vec![Track::default()];
    app.queue_index = Some(0);

    // An empty radio batch ends playback; the cover must not linger.
    drain(&mut app, vec![Msg::RadioTracks(Vec::new())]);

    assert!(app.current.is_none(), "playback ended");
    assert!(!app.has_artwork, "stale cover must not outlive playback");
}

#[test]
fn app_finishing_the_queue_clears_the_album_art() {
    finishing_the_queue_clears_the_album_art_body();
}

#[test]
fn mod_finishing_the_queue_clears_the_album_art() {
    finishing_the_queue_clears_the_album_art_body();
}

#[test]
fn playback_finishing_the_queue_clears_the_album_art() {
    finishing_the_queue_clears_the_album_art_body();
}

fn stop_clears_the_now_playing_state_but_keeps_the_queue_body() {
    let mut app = test_app();
    app.current = Some(Track::default());
    app.loading_audio = true;
    app.lyrics = LyricsState::Plain("la la".to_string());
    app.has_artwork = true;
    app.queue = vec![Track::default(), Track::default()];
    app.queue_index = Some(1);

    assert!(matches!(app.stop_playback(), Effect::StopPlayer));

    assert!(app.current.is_none(), "no track shown as playing");
    assert!(!app.loading_audio);
    assert!(!app.has_artwork, "cover cleared");
    assert!(app.clear_screen, "graphics leftovers get erased");
    assert!(matches!(app.lyrics, LyricsState::Pending));
    assert_eq!(app.queue.len(), 2, "queue survives for a later resume");

    // Stopping when idle must not request a screen clear (no flicker).
    let mut idle = test_app();
    idle.stop_playback();
    assert!(!idle.clear_screen);
}

#[test]
fn mod_stop_clears_the_now_playing_state_but_keeps_the_queue() {
    stop_clears_the_now_playing_state_but_keeps_the_queue_body();
}

#[test]
fn playback_stop_clears_the_now_playing_state_but_keeps_the_queue() {
    stop_clears_the_now_playing_state_but_keeps_the_queue_body();
}

fn session_expiry_maps_to_the_dedicated_message_body() {
    let message = client_error_message("Could not load library", ProviderError::SessionExpired);
    assert!(matches!(message, Msg::SessionExpired));
}

#[test]
fn app_session_expiry_maps_to_the_dedicated_message() {
    session_expiry_maps_to_the_dedicated_message_body();
}

#[test]
fn mod_session_expiry_maps_to_the_dedicated_message() {
    session_expiry_maps_to_the_dedicated_message_body();
}

#[test]
fn tasks_session_expiry_maps_to_the_dedicated_message() {
    session_expiry_maps_to_the_dedicated_message_body();
}

fn starting_a_track_kicks_the_fast_tier_body() {
    let mut app = test_app();
    app.queue = vec![track("a")];
    app.queue_index = Some(0);

    let effect = app.start_current();

    assert!(matches!(effect, Some(Effect::Play { .. })));
    assert!(
        app.needs_fast_animation(),
        "starting a track kicks the fast tier for the metadata fade-in"
    );
}

#[test]
fn animation_starting_a_track_marks_track_changed_at_and_kicks_the_fast_tier() {
    starting_a_track_kicks_the_fast_tier_body();
}

#[test]
fn mod_starting_a_track_marks_track_changed_at_and_kicks_the_fast_tier() {
    starting_a_track_kicks_the_fast_tier_body();
}

fn a_session_expiry_queued_before_sign_in_body() {
    let mut app = test_app();
    // `confirm_sign_in` advances this before the provider can commit.
    app.session_generation = 1;
    app.authentication_flow = AuthenticationFlow::Activating { operation_id: 4, preview_id: 7 };
    drain(
        &mut app,
        vec![
            Msg::SessionExpiredForSession { session_generation: 0 },
            Msg::SignedIn {
                operation_id: 4,
                preview_id: 7,
                method: "firefox".to_string(),
                credentials_path: None,
                account_name: "New Account".to_string(),
            },
        ],
    );

    assert_eq!(app.authentication, AuthState::Authenticated);
    assert_eq!(app.account_name.as_deref(), Some("New Account"));
}

#[test]
fn authentication_a_session_expiry_queued_before_sign_in_cannot_expire_the_new_account() {
    a_session_expiry_queued_before_sign_in_body();
}

#[test]
fn mod_a_session_expiry_queued_before_sign_in_cannot_expire_the_new_account() {
    a_session_expiry_queued_before_sign_in_body();
}

fn confirming_sign_in_retires_the_previous_session_body() {
    let mut app = test_app();
    app.authentication_flow = AuthenticationFlow::AwaitingConfirmation {
        operation_id: 0,
        preview: SignInPreview {
            id: 7,
            method: "firefox".to_string(),
            profile_label: None,
            accounts: vec![SignInAccount { index: 0, name: "New Account".to_string(), handle: None }],
            current_account_name: None,
        },
        selected: 0,
    };

    app.confirm_sign_in();

    assert_eq!(app.session_generation, 1);
}

#[test]
fn authentication_confirming_sign_in_retires_the_previous_session_before_activation_runs() {
    confirming_sign_in_retires_the_previous_session_body();
}

#[test]
fn mod_confirming_sign_in_retires_the_previous_session_before_activation_runs() {
    confirming_sign_in_retires_the_previous_session_body();
}

#[test]
fn animating_expires_after_the_kicked_window_elapses() {
    let mut app = test_app();
    app.ui.anim.kick_at(1, 2000);
    assert!(!app.ui.anim.animating_at(2005), "the animation window must expire");
}

#[test]
fn loaded_playlist_tracks_move_the_sidebar_to_search() {
    let mut app = test_app();
    app.section = Section::Fila;
    app.sidebar_index = Section::Fila.index();
    app.begin_task();
    drain(&mut app, vec![Msg::PlaylistTracks { title: "Playlist: Mix".to_string(), tracks: vec![track("a"), track("b")] }]);
    assert_eq!(app.section, Section::Buscar);
    assert_eq!(app.sidebar_index, Section::Buscar.index());
    assert_eq!(app.selected, Some(0));
    assert_eq!(app.status, "2 faixas carregadas.");
}

#[test]
fn an_app_around_a_provider_offers_every_built_in_theme() {
    let mut app = test_app();
    assert_eq!(app.theme_names, ytmtui::ui::theme::builtin_names());
    app.cycle_theme();
    assert_eq!(app.theme_index, 1);
    assert_eq!(app.status, "🎨 Tema: YT Vermelho");
}
