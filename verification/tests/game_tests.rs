use snake::direction::Direction;
use snake::game::{ConfigError, Game};
use snake::point::Point;
use snake::snake::Snake;

fn game_with(snake: Snake, food: Option<Point>, speed: u16, score: u16) -> Game {
    Game { food, snake, width: 10, height: 10, speed, score }
}

#[test]
fn new_builds_a_centered_three_segment_snake() {
    let g = Game::new(10, 10).unwrap();
    assert_eq!(g.width, 10);
    assert_eq!(g.height, 10);
    assert_eq!(g.score, 0);
    assert_eq!(g.speed, 0);
    assert!(g.food.is_none());
    let body = g.snake.get_body_points();
    assert_eq!(body.len(), 3);
    assert_eq!(body[0], Point::new(5, 5));
    for p in &body {
        assert!(p.x < 10 && p.y < 10);
    }
}

#[test]
fn new_refuses_grids_too_small_for_the_snake() {
    assert_eq!(Game::new(4, 10).unwrap_err(), ConfigError::GridTooSmall);
    assert_eq!(Game::new(10, 4).unwrap_err(), ConfigError::GridTooSmall);
    assert_eq!(Game::new(0, 0).unwrap_err(), ConfigError::GridTooSmall);
}

#[test]
fn new_refuses_grids_whose_area_overflows() {
    assert_eq!(Game::new(300, 300).unwrap_err(), ConfigError::GridTooLarge);
    assert!(Game::new(255, 257).is_ok());
}

#[test]
fn interval_shrinks_linearly_with_speed() {
    let g0 = game_with(Snake::new(Point::new(5, 5), 3, Direction::Right), None, 0, 0);
    assert_eq!(g0.calculate_interval(), 700);
    let g10 = game_with(Snake::new(Point::new(5, 5), 3, Direction::Right), None, 10, 0);
    assert_eq!(g10.calculate_interval(), 450);
    let g20 = game_with(Snake::new(Point::new(5, 5), 3, Direction::Right), None, 20, 0);
    assert_eq!(g20.calculate_interval(), 200);
}

#[test]
fn wall_collision_at_each_edge() {
    let cases = [
        (Point::new(0, 5), Direction::Left),
        (Point::new(9, 5), Direction::Right),
        (Point::new(5, 0), Direction::Up),
        (Point::new(5, 9), Direction::Down),
    ];
    for (head, d) in cases {
        let g = game_with(Snake::new(head, 3, d), None, 0, 0);
        assert!(g.has_collided_with_wall());
    }
    let g = game_with(Snake::new(Point::new(5, 5), 3, Direction::Right), None, 0, 0);
    assert!(!g.has_collided_with_wall());
}

#[test]
fn wall_collision_ends_the_tick_without_moving() {
    let mut g = game_with(Snake::new(Point::new(9, 5), 3, Direction::Right), None, 0, 0);
    let before = g.snake.get_body_points();
    assert!(!g.tick());
    assert_eq!(g.snake.get_body_points(), before);
    assert_eq!(g.score, 0);
}

// Coils the snake along the given path of segments, oldest first, by
// growing on every step; the result's head is the last point and nothing
// has been dropped.
fn coiled(path: &[Point], final_direction: Direction) -> Snake {
    let mut s = Snake::new(path[0], 1, Direction::Up);
    for w in path.windows(2) {
        let d = if w[1].x > w[0].x {
            Direction::Right
        } else if w[1].x < w[0].x {
            Direction::Left
        } else if w[1].y > w[0].y {
            Direction::Down
        } else {
            Direction::Up
        };
        s.grow();
        s.set_direction(d);
        s.slither();
    }
    s.set_direction(final_direction);
    s
}

#[test]
fn projected_head_on_a_middle_segment_is_a_self_collision() {
    // Head (5,5) heading Right projects onto (6,5), the snake's own neck.
    let s = coiled(
        &[
            Point::new(7, 5),
            Point::new(6, 5),
            Point::new(6, 4),
            Point::new(5, 4),
            Point::new(5, 5),
        ],
        Direction::Right,
    );
    let g = game_with(s, None, 0, 0);
    assert!(g.has_bitten_itself());
    let mut g = g;
    let before = g.snake.get_body_points();
    assert!(!g.tick());
    assert_eq!(g.snake.get_body_points(), before);
}

#[test]
fn projected_head_on_the_tail_is_not_a_self_collision() {
    // Head (5,5) heading Right projects onto (6,5), the current tail,
    // which moves away on the same tick.
    let s = coiled(
        &[
            Point::new(6, 5),
            Point::new(6, 4),
            Point::new(5, 4),
            Point::new(5, 5),
        ],
        Direction::Right,
    );
    let mut g = game_with(s, None, 0, 0);
    assert!(!g.has_bitten_itself());
    assert!(g.tick());
    assert_eq!(g.snake.get_head_point(), Point::new(6, 5));
}

#[test]
fn food_is_never_placed_on_the_body() {
    let mut g = game_with(Snake::new(Point::new(5, 5), 6, Direction::Right), None, 0, 0);
    for _ in 0..50 {
        g.place_food();
        let p = g.food.expect("free cells exist on a 10x10 grid");
        assert!(p.x < 10 && p.y < 10);
        assert!(!g.snake.contains_point(&p));
    }
}

#[test]
fn eating_grows_scores_and_relocates_the_food() {
    let mut g = game_with(
        Snake::new(Point::new(5, 5), 3, Direction::Right),
        Some(Point::new(6, 5)),
        0,
        0,
    );
    assert!(g.tick());
    assert_eq!(g.score, 1);
    assert_eq!(g.snake.get_head_point(), Point::new(6, 5));
    // The grown segment appears at the next move.
    assert_eq!(g.snake.get_body_points().len(), 3);
    let relocated = g.food.expect("food is replaced after being eaten");
    assert!(!g.snake.contains_point(&relocated));
    g.snake.set_direction(Direction::Up);
    assert!(g.tick());
    assert_eq!(g.snake.get_body_points().len(), 4);
}

#[test]
fn missing_the_food_changes_nothing_but_the_body() {
    let mut g = game_with(
        Snake::new(Point::new(5, 5), 3, Direction::Right),
        Some(Point::new(9, 9)),
        0,
        0,
    );
    assert!(g.tick());
    assert_eq!(g.score, 0);
    assert_eq!(g.speed, 0);
    assert_eq!(g.food, Some(Point::new(9, 9)));
    assert_eq!(g.snake.get_body_points().len(), 3);
}

#[test]
fn speed_rises_exactly_when_score_crosses_the_threshold() {
    // On a 10x10 grid the threshold is (10 * 10) / 20 = 5.
    let mut g = game_with(
        Snake::new(Point::new(5, 5), 3, Direction::Right),
        Some(Point::new(6, 5)),
        0,
        4,
    );
    assert!(g.tick());
    assert_eq!(g.score, 5);
    assert_eq!(g.speed, 1);

    let mut g = game_with(
        Snake::new(Point::new(5, 5), 3, Direction::Right),
        Some(Point::new(6, 5)),
        1,
        5,
    );
    assert!(g.tick());
    assert_eq!(g.score, 6);
    assert_eq!(g.speed, 1);

    let mut g = game_with(
        Snake::new(Point::new(5, 5), 3, Direction::Right),
        Some(Point::new(6, 5)),
        1,
        9,
    );
    assert!(g.tick());
    assert_eq!(g.score, 10);
    assert_eq!(g.speed, 2);
}

#[test]
fn speed_never_exceeds_the_maximum() {
    let mut g = game_with(
        Snake::new(Point::new(5, 5), 3, Direction::Right),
        Some(Point::new(6, 5)),
        20,
        4,
    );
    assert!(g.tick());
    assert_eq!(g.score, 5);
    assert_eq!(g.speed, 20);
}

#[test]
fn turns_toward_the_heading_or_its_opposite_are_ignored() {
    let mut g = game_with(Snake::new(Point::new(5, 5), 3, Direction::Right), None, 0, 0);
    g.apply_turn(Direction::Right);
    assert_eq!(g.snake.get_direction(), Direction::Right);
    g.apply_turn(Direction::Left);
    assert_eq!(g.snake.get_direction(), Direction::Right);
    g.apply_turn(Direction::Up);
    assert_eq!(g.snake.get_direction(), Direction::Up);
}

#[test]
fn a_second_turn_is_judged_against_the_turned_heading() {
    // Heading Right, then a turn Up: a following turn Down would reverse
    // the heading the snake now has, so it is ignored.
    let mut g = game_with(Snake::new(Point::new(5, 5), 3, Direction::Right), None, 0, 0);
    g.apply_turn(Direction::Up);
    assert_eq!(g.snake.get_direction(), Direction::Up);
    g.apply_turn(Direction::Down);
    assert_eq!(g.snake.get_direction(), Direction::Up);
    g.apply_turn(Direction::Left);
    assert_eq!(g.snake.get_direction(), Direction::Left);
}
