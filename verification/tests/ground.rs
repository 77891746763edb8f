use snake::ground::{CoordSystem, Grid, Position};

#[test]
fn position_new_keeps_its_arguments() {
    let position = Position::new(3, -4, 1);
    assert_eq!(position.x, 3);
    assert_eq!(position.y, -4);
    assert_eq!(position.z, 1);
}

#[test]
fn in_one_position_compares_both_axes_exactly() {
    let cell = Position::new(6, 5, 1);
    assert!(CoordSystem::in_one_position(&cell, &Position::new(6, 5, 1)));
    assert!(!CoordSystem::in_one_position(&cell, &Position::new(6, 4, 1)));
    assert!(!CoordSystem::in_one_position(&cell, &Position::new(5, 5, 1)));
    assert!(!CoordSystem::in_one_position(&cell, &Position::new(5, 6, 1)));
}

#[test]
fn in_one_position_ignores_the_layer() {
    assert!(CoordSystem::in_one_position(&Position::new(6, 5, 1), &Position::new(6, 5, 0)));
}

#[test]
fn grid_needs_at_least_one_cell() {
    assert!(Grid::new(0, 0).is_none());
    assert!(Grid::new(0, 10).is_none());
    assert!(Grid::new(10, 0).is_none());
    let grid = Grid::new(1, 1).unwrap();
    assert_eq!(grid.width(), 1);
    assert_eq!(grid.height(), 1);
}

#[test]
fn grid_keeps_its_extent() {
    let grid = Grid::new(20, 10).unwrap();
    assert_eq!(grid.width(), 20);
    assert_eq!(grid.height(), 10);
}

#[test]
fn grid_contains_its_corners_and_nothing_beyond() {
    let grid = Grid::new(20, 10).unwrap();
    assert!(grid.contains(&Position::new(0, 0, 0)));
    assert!(grid.contains(&Position::new(19, 9, 0)));
    assert!(grid.contains(&Position::new(19, 0, 1)));
    assert!(!grid.contains(&Position::new(20, 0, 0)));
    assert!(!grid.contains(&Position::new(0, 10, 0)));
    assert!(!grid.contains(&Position::new(-1, 0, 0)));
    assert!(!grid.contains(&Position::new(0, -1, 0)));
    assert!(!grid.contains(&Position::new(i32::MAX, i32::MIN, 0)));
}

#[test]
fn get_translate_of_the_origin_cell() {
    // 0 * 30 - 150 + 30 / 2
    assert_eq!(CoordSystem::get_translate(&Position::new(0, 0, 1), (30, 30)), (-135, -135));
}

#[test]
fn get_translate_of_the_far_corner_cell() {
    // 9 * 30 - 150 + 30 / 2
    assert_eq!(CoordSystem::get_translate(&Position::new(9, 9, 0), (30, 30)), (135, 135));
}

#[test]
fn get_translate_treats_the_axes_apart() {
    // x: 2 * 30 - 150 + 10 / 2, y: -3 * 30 - 150 + 7 / 2
    assert_eq!(CoordSystem::get_translate(&Position::new(2, -3, 0), (10, 7)), (-85, -237));
}

#[test]
fn get_translate_at_the_limits_of_a_cell() {
    let far = CoordSystem::get_translate(&Position::new(i32::MAX, i32::MIN, 0), (u32::MAX, 0));
    assert_eq!(far.0, 2147483647i64 * 30 - 150 + 2147483647);
    assert_eq!(far.1, -2147483648i64 * 30 - 150);
}
