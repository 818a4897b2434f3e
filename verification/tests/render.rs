use std::collections::VecDeque;

use snake_game::game::SnakeGame;
use snake_game::geometry::Direction;
use snake_game::geometry::Vector;
use snake_game::render::BLANK_SYMBOL;
use snake_game::render::BODY_SYMBOL;
use snake_game::render::HEAD_SYMBOL;

#[test]
fn projection_of_a_small_grid() {
    let g = SnakeGame {
        width: 3,
        height: 3,
        snake: VecDeque::from(vec![Vector(1, 1), Vector(1, 2)]),
        foods: vec![Vector(0, 0)],
        food_icons: vec!['\u{1F35E}'],
        direction: Direction::Up,
        changed_direction: Direction::Up,
        food_count: 1,
        finished: false,
    };
    let data = g.renderer_data();
    assert_eq!(data.len(), 9);
    // row-major: cell (x, y) sits at index y * width + x
    assert_eq!(data[0], '\u{1F35E}');
    assert_eq!(data[1 * 3 + 1], HEAD_SYMBOL);
    assert_eq!(data[2 * 3 + 1], BODY_SYMBOL);
    for k in [1, 2, 3, 5, 6, 8] {
        assert_eq!(data[k], BLANK_SYMBOL);
    }
}

#[test]
fn projection_works_after_termination() {
    let mut g = SnakeGame {
        width: 20,
        height: 20,
        snake: VecDeque::from(vec![Vector(0, 10)]),
        foods: vec![],
        food_icons: vec![],
        direction: Direction::Left,
        changed_direction: Direction::Left,
        food_count: 0,
        finished: false,
    };
    g.tick();
    assert!(g.finished);
    let data = g.renderer_data();
    assert_eq!(data.len(), 400);
    assert_eq!(data[10 * 20], HEAD_SYMBOL);
    assert_eq!(data.iter().filter(|c| **c == HEAD_SYMBOL).count(), 1);
}

#[test]
fn projection_is_deterministic() {
    let g = SnakeGame::new(12, 9, 4).expect("valid configuration");
    let a = g.renderer_data();
    let b = g.renderer_data();
    assert_eq!(a, b);
    assert_eq!(a.len(), 12 * 9);
}
