use entity_grid::entity::{EntityId, GridEntity};
use entity_grid::grid::Grid;
use entity_grid::position::GridPosition;
use entity_grid::rotation::Rotation;

#[test]
fn test_grid() {
    let mut grid = Grid::new();

    let position = GridPosition::new(0, 0);
    let entity = EntityId::placeholder();
    let rotation = Rotation::default();

    grid.insert(position, entity, rotation);

    assert_eq!(grid.get(position), Some(GridEntity { entity, rotation }));
    assert_eq!(grid.contains(position), true);
    assert_eq!(grid.len(), 1);

    grid.remove(position);

    assert_eq!(grid.get(position), None);
    assert_eq!(grid.contains(position), false);
    assert_eq!(grid.len(), 0);
}

#[test]
fn test_grid_get_mut() {
    let mut grid = Grid::new();

    let position = GridPosition::new(0, 0);
    let entity = EntityId::placeholder();
    let rotation = Rotation::default();

    grid.insert(position, entity, rotation);

    let grid_entity = grid.get_mut(position).unwrap();
    grid_entity.rotation = Rotation::Right;

    assert_eq!(
        grid.get(position),
        Some(GridEntity {
            entity,
            rotation: Rotation::Right
        })
    );
}

#[test]
fn test_grid_contains() {
    let mut grid = Grid::new();

    let position = GridPosition::new(0, 0);
    let entity = EntityId::placeholder();
    let rotation = Rotation::default();

    grid.insert(position, entity, rotation);

    assert_eq!(grid.contains(position), true);
}

#[test]
fn test_grid_len() {
    let mut grid = Grid::new();

    let position1 = GridPosition::new(0, 0);
    let entity1 = EntityId::placeholder();
    let rotation1 = Rotation::default();

    let position2 = GridPosition::new(1, 1);
    let entity2 = EntityId::placeholder();
    let rotation2 = Rotation::default();

    grid.insert(position1, entity1, rotation1);
    grid.insert(position2, entity2, rotation2);

    assert_eq!(grid.len(), 2);
}

#[test]
fn test_grid_get() {
    let mut grid = Grid::new();

    let position = GridPosition::new(0, 0);
    let entity = EntityId::placeholder();
    let rotation = Rotation::default();

    grid.insert(position, entity, rotation);

    assert_eq!(grid.get(position), Some(GridEntity { entity, rotation }));
}

#[test]
fn test_grid_insert() {
    let mut grid = Grid::new();

    let position = GridPosition::new(0, 0);
    let entity = EntityId::placeholder();
    let rotation = Rotation::default();

    grid.insert(position, entity, rotation);

    assert_eq!(grid.get(position), Some(GridEntity { entity, rotation }));
}

#[test]
fn test_grid_remove() {
    let mut grid = Grid::new();

    let position = GridPosition::new(0, 0);
    let entity = EntityId::placeholder();
    let rotation = Rotation::default();

    grid.insert(position, entity, rotation);

    assert_eq!(grid.remove(position), Some(GridEntity { entity, rotation }));
}

#[test]
fn test_grid_insert_overwrites_occupied_cell() {
    let mut grid = Grid::new();
    let position = GridPosition::new(3, -7);

    grid.insert(position, EntityId::new(1, 0), Rotation::Up);
    grid.insert(position, EntityId::new(2, 0), Rotation::Left);

    assert_eq!(grid.len(), 1);
    assert_eq!(
        grid.get(position),
        Some(GridEntity {
            entity: EntityId::new(2, 0),
            rotation: Rotation::Left
        })
    );
}

#[test]
fn test_grid_contains_iff_get_present() {
    let mut grid = Grid::new();
    let occupied = GridPosition::new(5, 5);
    let empty = GridPosition::new(-5, -5);

    grid.insert(occupied, EntityId::new(9, 1), Rotation::Down);

    assert_eq!(grid.contains(occupied), grid.get(occupied).is_some());
    assert_eq!(grid.contains(empty), grid.get(empty).is_some());
    assert!(grid.contains(occupied));
    assert!(!grid.contains(empty));
}

#[test]
fn test_grid_len_counts_occupied_positions() {
    let mut grid = Grid::new();
    let positions = [
        GridPosition::new(0, 0),
        GridPosition::new(1, 0),
        GridPosition::new(0, 1),
        GridPosition::new(-4, 9),
    ];
    for (i, p) in positions.iter().enumerate() {
        grid.insert(*p, EntityId::new(i as u32, 0), Rotation::Up);
    }
    assert_eq!(grid.len(), 4);
    let occupied = positions.iter().filter(|p| grid.contains(**p)).count();
    assert_eq!(grid.len(), occupied);
}

#[test]
fn test_grid_get_mut_on_empty_cell() {
    let mut grid = Grid::new();
    assert!(grid.get_mut(GridPosition::new(0, 0)).is_none());
}

#[test]
fn test_grid_remove_on_empty_cell() {
    let mut grid = Grid::new();
    assert_eq!(grid.remove(GridPosition::new(2, 2)), None);
    assert_eq!(grid.len(), 0);
}

#[test]
fn test_grid_iter_returns_every_entry_once() {
    let mut grid = Grid::new();
    grid.insert(GridPosition::new(0, 0), EntityId::new(1, 0), Rotation::Up);
    grid.insert(GridPosition::new(2, -3), EntityId::new(2, 0), Rotation::Left);

    let mut entries = grid.iter();
    assert_eq!(entries.len(), 2);
    entries.sort_by_key(|(p, _)| (p.x, p.y));
    assert_eq!(entries[0].0, GridPosition::new(0, 0));
    assert_eq!(
        entries[0].1,
        GridEntity {
            entity: EntityId::new(1, 0),
            rotation: Rotation::Up
        }
    );
    assert_eq!(entries[1].0, GridPosition::new(2, -3));
    assert_eq!(
        entries[1].1,
        GridEntity {
            entity: EntityId::new(2, 0),
            rotation: Rotation::Left
        }
    );
}

#[test]
fn test_grid_iter_mut_updates_every_entry_in_place() {
    let mut grid = Grid::new();
    grid.insert(GridPosition::new(0, 0), EntityId::new(1, 0), Rotation::Up);
    grid.insert(GridPosition::new(5, -5), EntityId::new(2, 0), Rotation::Left);

    grid.iter_mut(|_position, entry| GridEntity {
        entity: entry.entity,
        rotation: entry.rotation.next(),
    });

    assert_eq!(grid.len(), 2);
    assert_eq!(
        grid.get(GridPosition::new(0, 0)),
        Some(GridEntity {
            entity: EntityId::new(1, 0),
            rotation: Rotation::Right
        })
    );
    assert_eq!(
        grid.get(GridPosition::new(5, -5)),
        Some(GridEntity {
            entity: EntityId::new(2, 0),
            rotation: Rotation::Up
        })
    );

    grid.iter_mut(|_position, entry| entry);
    assert_eq!(
        grid.get(GridPosition::new(0, 0)),
        Some(GridEntity {
            entity: EntityId::new(1, 0),
            rotation: Rotation::Right
        })
    );
}

#[test]
fn test_grid_clone_holds_same_entries() {
    let mut grid = Grid::new();
    let position = GridPosition::new(8, 8);
    grid.insert(position, EntityId::new(4, 2), Rotation::Right);
    let copy = grid.clone();
    assert_eq!(copy.len(), 1);
    assert_eq!(copy.get(position), grid.get(position));
}

#[test]
fn test_grid_fill_odd_radius_writes_four_cells() {
    let mut grid = Grid::new();
    let entity = EntityId::new(7, 0);
    grid.fill(entity, Rotation::Down, 1);

    assert_eq!(grid.len(), 4);
    for (x, y) in [(-1, -1), (-1, 0), (0, -1), (0, 0)] {
        assert_eq!(
            grid.get(GridPosition::new(x, y)),
            Some(GridEntity {
                entity,
                rotation: Rotation::Down
            })
        );
    }
    assert_eq!(grid.get(GridPosition::new(1, 0)), None);
    assert_eq!(grid.get(GridPosition::new(0, 1)), None);
}

#[test]
fn test_grid_fill_even_or_negative_radius_writes_nothing() {
    let mut grid = Grid::new();
    grid.fill(EntityId::new(7, 0), Rotation::Down, 2);
    assert_eq!(grid.len(), 0);
    grid.fill(EntityId::new(7, 0), Rotation::Down, 0);
    assert_eq!(grid.len(), 0);
    grid.fill(EntityId::new(7, 0), Rotation::Down, -3);
    assert_eq!(grid.len(), 0);
    grid.fill(EntityId::new(7, 0), Rotation::Down, 3);
    assert_eq!(grid.len(), 4);
}

#[test]
fn test_grid_entity_test_value() {
    assert_eq!(
        GridEntity::test(),
        GridEntity {
            entity: EntityId::placeholder(),
            rotation: Rotation::Up
        }
    );
}
