use entity_grid::rotation::{Rotation, EMPTY};

#[test]
fn test_rotation_next() {
    assert_eq!(Rotation::Up.next(), Rotation::Right);
    assert_eq!(Rotation::Right.next(), Rotation::Down);
    assert_eq!(Rotation::Down.next(), Rotation::Left);
    assert_eq!(Rotation::Left.next(), Rotation::Up);
}

#[test]
fn test_rotation_previous() {
    assert_eq!(Rotation::Up.previous(), Rotation::Left);
    assert_eq!(Rotation::Right.previous(), Rotation::Up);
    assert_eq!(Rotation::Down.previous(), Rotation::Right);
    assert_eq!(Rotation::Left.previous(), Rotation::Down);
}

#[test]
fn test_rotation_opposite() {
    assert_eq!(Rotation::Up.opposite(), Rotation::Down);
    assert_eq!(Rotation::Right.opposite(), Rotation::Left);
    assert_eq!(Rotation::Down.opposite(), Rotation::Up);
    assert_eq!(Rotation::Left.opposite(), Rotation::Right);
}

#[test]
fn test_rotation_quarter_turns() {
    assert_eq!(Rotation::Up.quarter_turns(), 0);
    assert_eq!(Rotation::Right.quarter_turns(), 1);
    assert_eq!(Rotation::Down.quarter_turns(), 2);
    assert_eq!(Rotation::Left.quarter_turns(), 3);
}

#[test]
fn test_rotation_next_four_times_is_identity() {
    for r in [Rotation::Up, Rotation::Right, Rotation::Down, Rotation::Left] {
        assert_eq!(r.next().next().next().next(), r);
        assert_eq!(r.next().previous(), r);
        assert_eq!(r.previous().next(), r);
    }
}

#[test]
fn test_rotation_opposite_twice_is_identity() {
    for r in [Rotation::Up, Rotation::Right, Rotation::Down, Rotation::Left] {
        assert_eq!(r.opposite().opposite(), r);
    }
}

#[test]
fn test_rotation_default_is_up() {
    assert_eq!(Rotation::default(), Rotation::Up);
    assert_eq!(EMPTY, Rotation::Up);
}

#[test]
fn test_rotation_from_byte_table() {
    assert_eq!(Rotation::from_byte(0), Rotation::Up);
    assert_eq!(Rotation::from_byte(1), Rotation::Right);
    assert_eq!(Rotation::from_byte(2), Rotation::Down);
    assert_eq!(Rotation::from_byte(3), Rotation::Left);
    assert_eq!(Rotation::from_byte(4), Rotation::Up);
    assert_eq!(Rotation::from_byte(254), Rotation::Down);
    assert_eq!(Rotation::from_byte(255), Rotation::Left);
}

#[test]
fn test_rotation_random_is_one_of_four() {
    for _ in 0..32 {
        let r = Rotation::random();
        assert!(matches!(
            r,
            Rotation::Up | Rotation::Right | Rotation::Down | Rotation::Left
        ));
    }
}
