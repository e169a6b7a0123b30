use ytmtui::home::{HomeCardPayload, HomeDirection, HomeKey, HomeView};
use ytmtui::models::{HomeSection, Playlist, Track};

fn recent_tracks() -> Vec<Track> {
    vec![
        Track { video_id: "t1".into(), title: "First track".into(), ..Default::default() },
        Track { video_id: "t2".into(), title: "Second track".into(), ..Default::default() },
    ]
}

fn provider_sections() -> Vec<HomeSection> {
    vec![
        HomeSection {
            title: "Quick picks".into(),
            items: vec![
                Playlist { browse_id: "p1".into(), title: "First collection".into(), ..Default::default() },
                Playlist { browse_id: "p2".into(), title: "Second collection".into(), ..Default::default() },
            ],
        },
        HomeSection {
            title: "Made for you".into(),
            items: vec![Playlist { browse_id: "p3".into(), title: "Third collection".into(), ..Default::default() }],
        },
    ]
}

#[test]
fn projection_puts_recent_history_first_and_keeps_provider_order() {
    let view = HomeView::project("ytmusic", &recent_tracks(), &provider_sections());
    assert_eq!(view.shelves[0].title, "Continue listening");
    assert_eq!(view.shelves[1].title, "Quick picks");
    assert_eq!(view.shelves[2].title, "Made for you");
    assert_eq!(view.len(), 5);
    assert!(matches!(view.flat_card(0).unwrap().payload, HomeCardPayload::Track(_)));
    assert!(matches!(view.flat_card(2).unwrap().payload, HomeCardPayload::Collection(_)));
}

#[test]
fn stable_keys_distinguish_recent_tracks_from_provider_collections() {
    let view = HomeView::project("ytmusic", &recent_tracks(), &provider_sections());
    assert_eq!(view.flat_card(0).unwrap().key, HomeKey::new("local", "track", "t1"));
    assert_eq!(view.flat_card(2).unwrap().key, HomeKey::new("ytmusic", "collection", "p1"));
    assert_eq!(view.flat_index_of(&HomeKey::new("ytmusic", "collection", "p2")), Some(3));
}

#[test]
fn movement_is_deterministic_by_shelf_and_column() {
    let recent = vec![
        Track { video_id: "t1".into(), ..Default::default() },
        Track { video_id: "t2".into(), ..Default::default() },
        Track { video_id: "t3".into(), ..Default::default() },
    ];
    let sections = vec![
        HomeSection {
            title: "Two cards".into(),
            items: (1..=2).map(|i| Playlist { browse_id: format!("p{i}"), ..Default::default() }).collect(),
        },
        HomeSection {
            title: "Four cards".into(),
            items: (3..=6).map(|i| Playlist { browse_id: format!("p{i}"), ..Default::default() }).collect(),
        },
    ];
    let view = HomeView::project("ytmusic", &recent, &sections);

    assert_eq!(view.move_index(1, HomeDirection::Right, 3), 2);
    assert_eq!(view.move_index(2, HomeDirection::Right, 3), 0);
    assert_eq!(view.move_index(2, HomeDirection::Down, 3), 4);
    assert_eq!(view.move_index(4, HomeDirection::Down, 3), 6);
    assert_eq!(view.move_index(7, HomeDirection::Up, 3), 4);
}

#[test]
fn without_history_the_provider_shelves_come_first() {
    let view = HomeView::project("ytmusic", &[], &provider_sections());
    assert_eq!(view.shelves.len(), 2);
    assert_eq!(view.shelves[0].title, "Quick picks");
    assert_eq!(view.len(), 3);
    assert!(view.flat_card(3).is_none());
    assert_eq!(view.flat_index_of(&HomeKey::new("ytmusic", "collection", "zz")), None);
    assert_eq!(view.move_index(0, HomeDirection::Left, 1), 1);
    assert_eq!(view.move_index(2, HomeDirection::Down, 1), 2);
    assert_eq!(view.move_index(99, HomeDirection::Right, 1), 0);
}

#[test]
fn left_and_right_stay_within_the_shelf() {
    let recent = vec![
        Track { video_id: "t1".into(), ..Default::default() },
        Track { video_id: "t2".into(), ..Default::default() },
        Track { video_id: "t3".into(), ..Default::default() },
    ];
    let sections = vec![HomeSection {
        title: "Two cards".into(),
        items: (1..=2).map(|i| Playlist { browse_id: format!("p{i}"), ..Default::default() }).collect(),
    }];
    let view = HomeView::project("ytmusic", &recent, &sections);
    // First shelf holds 0..3, the second 3..5.
    assert_eq!(view.move_index(0, HomeDirection::Left, 3), 2);
    assert_eq!(view.move_index(2, HomeDirection::Right, 3), 0);
    assert_eq!(view.move_index(4, HomeDirection::Right, 3), 3);
    assert_eq!(view.move_index(3, HomeDirection::Left, 3), 4);
    // Up on the first shelf and Down on the last stay put.
    assert_eq!(view.move_index(1, HomeDirection::Up, 3), 1);
    assert_eq!(view.move_index(4, HomeDirection::Down, 3), 4);
}
