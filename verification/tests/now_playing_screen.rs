use ytmtui::ui::layout::{layout_for, square_in, CellRect, Layout2, CELL_ASPECT};

#[test]
fn a_missing_cover_always_falls_back_to_text_only() {
    assert_eq!(layout_for(200, 60, false), Layout2::Bare);
}

#[test]
fn the_layout_degrades_with_the_available_room() {
    assert_eq!(layout_for(120, 40, true), Layout2::Wide);
    assert_eq!(layout_for(60, 30, true), Layout2::Stacked);
    assert_eq!(layout_for(120, 10, true), Layout2::Bare);
}

#[test]
fn the_cover_stays_square_in_cells_not_in_rows() {
    let square = square_in(CellRect { x: 0, y: 0, width: 40, height: 30 });
    assert_eq!(square.width, square.height * CELL_ASPECT);
}

#[test]
fn the_cover_is_centered_in_its_area() {
    let area = CellRect { x: 10, y: 5, width: 40, height: 30 };
    let square = square_in(area);
    let left = square.x - area.x;
    let right = (area.x + area.width) - (square.x + square.width);
    assert!(left.abs_diff(right) <= 1, "left {left} vs right {right}");
}

#[test]
fn an_area_too_small_for_any_square_yields_nothing_to_draw() {
    let square = square_in(CellRect { x: 0, y: 0, width: 1, height: 10 });
    assert_eq!((square.width, square.height), (0, 0));
}
