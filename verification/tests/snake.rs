use snake_game::grid::{Direction, Position};
use snake_game::snake::Snake;

fn single_cell_snake(x: i32, y: i32) -> Snake {
    Snake { body: vec![Position::new(x, y)], direction: Direction::Right, grow_next: false }
}

#[test]
fn reverse_direction_request_is_dropped() {
    let mut s = Snake::new();
    assert!(matches!(s.direction, Direction::Right));
    assert!(matches!(s.direction.opposite(), Direction::Left));
    s.change_direction(s.direction.opposite());
    assert!(matches!(s.direction, Direction::Right));
    s.change_direction(Direction::Up);
    assert!(matches!(s.direction, Direction::Up));
    s.change_direction(Direction::Down);
    assert!(matches!(s.direction, Direction::Up));
    s.change_direction(Direction::Left);
    assert!(matches!(s.direction, Direction::Left));
}

#[test]
fn advance_without_growth_keeps_length() {
    let mut s = Snake::new();
    assert_eq!(s.body.len(), 3);
    s.update();
    assert_eq!(s.body.len(), 3);
    s.update();
    assert_eq!(s.body.len(), 3);
}

#[test]
fn grow_then_advance_adds_exactly_one_cell() {
    let mut s = Snake::new();
    s.grow();
    assert!(s.grow_next);
    s.update();
    assert_eq!(s.body.len(), 4);
    assert!(!s.grow_next);
}

#[test]
fn repeated_grow_requests_apply_once() {
    let mut s = Snake::new();
    s.grow();
    s.grow();
    s.grow();
    s.update();
    assert_eq!(s.body.len(), 4);
    s.update();
    assert_eq!(s.body.len(), 4);
}

#[test]
fn one_tick_translates_the_body() {
    let mut s = Snake::new();
    assert_eq!(
        s.body,
        vec![Position::new(5, 10), Position::new(4, 10), Position::new(3, 10)]
    );
    s.update();
    assert_eq!(
        s.body,
        vec![Position::new(6, 10), Position::new(5, 10), Position::new(4, 10)]
    );
}

#[test]
fn head_is_the_front_cell() {
    let mut s = Snake::new();
    assert_eq!(s.head(), Position::new(5, 10));
    s.update();
    assert_eq!(s.head(), Position::new(6, 10));
}

#[test]
fn wall_collision_exactly_when_head_leaves_the_grid() {
    assert!(!single_cell_snake(0, 0).check_wall_collision(40, 30));
    assert!(!single_cell_snake(39, 29).check_wall_collision(40, 30));
    assert!(single_cell_snake(-1, 5).check_wall_collision(40, 30));
    assert!(single_cell_snake(40, 5).check_wall_collision(40, 30));
    assert!(single_cell_snake(5, -1).check_wall_collision(40, 30));
    assert!(single_cell_snake(5, 30).check_wall_collision(40, 30));
}

#[test]
fn self_collision_exactly_when_head_on_a_later_cell() {
    let s = Snake::new();
    assert!(!s.check_self_collision());
    let looped = Snake {
        body: vec![
            Position::new(2, 2),
            Position::new(3, 2),
            Position::new(3, 3),
            Position::new(2, 3),
            Position::new(2, 2),
        ],
        direction: Direction::Up,
        grow_next: false,
    };
    assert!(looped.check_self_collision());
}

#[test]
fn moving_in_each_direction_shifts_the_head_one_cell() {
    let mut s = single_cell_snake(10, 10);
    s.direction = Direction::Up;
    s.update();
    assert_eq!(s.head(), Position::new(10, 9));
    s.direction = Direction::Down;
    s.update();
    assert_eq!(s.head(), Position::new(10, 10));
    s.direction = Direction::Left;
    s.update();
    assert_eq!(s.head(), Position::new(9, 10));
    s.direction = Direction::Right;
    s.update();
    assert_eq!(s.head(), Position::new(10, 10));
}
