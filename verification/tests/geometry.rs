use snake_game::geometry::Direction;
use snake_game::geometry::Vector;

#[test]
fn vector_add_sums_components() {
    assert_eq!(Vector(3, -2).add(Vector(1, 5)), Vector(4, 3));
    assert_eq!(Vector(0, 0).add(Vector(-7, 9)), Vector(-7, 9));
}

#[test]
fn opposite_pairs() {
    assert_eq!(Direction::Up.opposite(), Direction::Down);
    assert_eq!(Direction::Down.opposite(), Direction::Up);
    assert_eq!(Direction::Left.opposite(), Direction::Right);
    assert_eq!(Direction::Right.opposite(), Direction::Left);
}

#[test]
fn opposite_is_involution_and_never_fixes() {
    let all = [
        Direction::Up,
        Direction::Left,
        Direction::Down,
        Direction::Right,
    ];
    for d in all {
        assert_eq!(d.opposite().opposite(), d);
        assert_ne!(d.opposite(), d);
    }
}

#[test]
fn to_vec_unit_deltas() {
    assert_eq!(Direction::Up.to_vec(), Vector(0, -1));
    assert_eq!(Direction::Left.to_vec(), Vector(-1, 0));
    assert_eq!(Direction::Down.to_vec(), Vector(0, 1));
    assert_eq!(Direction::Right.to_vec(), Vector(1, 0));
}
