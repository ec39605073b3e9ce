use entity_grid::position::GridPosition;

#[test]
fn test_add() {
    let pos1 = GridPosition::new(1, 2);
    let pos2 = GridPosition::new(3, 4);
    let result = pos1.add(pos2);
    assert_eq!(result, GridPosition::new(4, 6));
}

#[test]
fn test_add_ivec2() {
    let pos = GridPosition::new(1, 2);
    let vec = GridPosition::new(3, 4);
    let result = pos.add(vec);
    assert_eq!(result, GridPosition::new(4, 6));
}

#[test]
fn test_add_wraps_at_coordinate_extremes() {
    let pos = GridPosition::new(i32::MAX, i32::MIN);
    let result = pos.add(GridPosition::new(1, -1));
    assert_eq!(result, GridPosition::new(i32::MIN, i32::MAX));
}
