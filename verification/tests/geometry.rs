use snake::direction::Direction;
use snake::point::Point;

#[test]
fn transform_moves_one_cell_in_each_direction() {
    let p = Point::new(5, 5);
    assert_eq!(p.transform(Direction::Up, 1), Point::new(5, 4));
    assert_eq!(p.transform(Direction::Right, 1), Point::new(6, 5));
    assert_eq!(p.transform(Direction::Down, 1), Point::new(5, 6));
    assert_eq!(p.transform(Direction::Left, 1), Point::new(4, 5));
}

#[test]
fn transform_moves_by_distance() {
    let p = Point::new(5, 5);
    assert_eq!(p.transform(Direction::Right, 3), Point::new(8, 5));
    assert_eq!(p.transform(Direction::Up, 5), Point::new(5, 0));
}

#[test]
fn opposite_swaps_the_axis_ends() {
    assert_eq!(Direction::Up.opposite(), Direction::Down);
    assert_eq!(Direction::Down.opposite(), Direction::Up);
    assert_eq!(Direction::Right.opposite(), Direction::Left);
    assert_eq!(Direction::Left.opposite(), Direction::Right);
}

#[test]
fn opposite_twice_is_identity() {
    for d in [Direction::Up, Direction::Right, Direction::Down, Direction::Left] {
        assert_eq!(d.opposite().opposite(), d);
    }
}

#[test]
fn points_compare_by_value() {
    assert_eq!(Point::new(3, 7), Point::new(3, 7));
    assert_ne!(Point::new(3, 7), Point::new(7, 3));
}
