use ytmtui::config::HomeDensity;
use ytmtui::home::HomeView;
use ytmtui::models::{HomeSection, Playlist, Track};
use ytmtui::ui::layout::{grid_columns, horizontal_offset, shelf_height, shelf_window};

fn grid_view() -> HomeView {
    let recent = vec![
        Track { video_id: "t1".into(), ..Default::default() },
        Track { video_id: "t2".into(), ..Default::default() },
    ];
    let sections = vec![
        HomeSection {
            title: "Three cards".into(),
            items: (1..=3).map(|i| Playlist { browse_id: format!("p{i}"), ..Default::default() }).collect(),
        },
        HomeSection {
            title: "One card".into(),
            items: vec![Playlist { browse_id: "p9".into(), ..Default::default() }],
        },
    ];
    HomeView::project("ytmusic", &recent, &sections)
}

#[test]
fn narrow_or_empty_areas_use_a_single_column() {
    assert_eq!(grid_columns(69, 30), 1);
    assert_eq!(grid_columns(0, 30), 1);
    assert_eq!(grid_columns(100, 0), 1);
}

#[test]
fn wide_areas_fit_as_many_card_columns_as_the_width_allows() {
    assert_eq!(grid_columns(70, 10), 2);
    assert_eq!(grid_columns(96, 10), 4);
    assert_eq!(grid_columns(119, 10), 4);
}

#[test]
fn shelf_heights_follow_the_density() {
    assert_eq!(shelf_height(HomeDensity::Comfortable), 6);
    assert_eq!(shelf_height(HomeDensity::Compact), 5);
}

#[test]
fn the_shelf_window_scrolls_just_enough_to_show_the_selected_shelf() {
    // 13 rows of comfortable shelves (6 rows each) show two shelves.
    assert_eq!(shelf_window(13, HomeDensity::Comfortable, 5, None), (0, 2));
    assert_eq!(shelf_window(13, HomeDensity::Comfortable, 5, Some(1)), (0, 2));
    assert_eq!(shelf_window(13, HomeDensity::Comfortable, 5, Some(3)), (2, 4));
    // Never past the last shelf.
    assert_eq!(shelf_window(13, HomeDensity::Comfortable, 5, Some(4)), (3, 5));
    // A window too short for one shelf still shows one.
    assert_eq!(shelf_window(2, HomeDensity::Compact, 3, Some(2)), (2, 3));
    // Fewer shelves than fit.
    assert_eq!(shelf_window(40, HomeDensity::Compact, 2, Some(1)), (0, 2));
}

#[test]
fn the_horizontal_offset_keeps_the_selected_card_visible() {
    assert_eq!(horizontal_offset(None, 10, 3), 0);
    assert_eq!(horizontal_offset(Some(2), 10, 3), 0);
    assert_eq!(horizontal_offset(Some(5), 10, 3), 3);
    assert_eq!(horizontal_offset(Some(9), 10, 3), 7);
}

#[test]
fn shelf_of_finds_the_shelf_and_its_first_flat_index() {
    let view = grid_view();
    assert_eq!(view.shelf_of(0), Some((0, 0)));
    assert_eq!(view.shelf_of(1), Some((0, 0)));
    assert_eq!(view.shelf_of(2), Some((1, 2)));
    assert_eq!(view.shelf_of(4), Some((1, 2)));
    assert_eq!(view.shelf_of(5), Some((2, 5)));
    assert_eq!(view.shelf_of(6), None);
}
