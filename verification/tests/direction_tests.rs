use dungeon::direction::{parse_direction, parse_direction_or, Direction};
use dungeon::position::Position;

const ALL_DIRECTIONS: [Direction; 4] =
    [Direction::Right, Direction::Up, Direction::Left, Direction::Down];

fn reversed(d: Direction) -> Direction {
    d.reverse()
}

fn rotated_right(d: Direction) -> Direction {
    let mut p = Position { direction: d, x: 0, z: 0 };
    p.rotate_right();
    p.direction
}

fn rotated_left(d: Direction) -> Direction {
    let mut p = Position { direction: d, x: 0, z: 0 };
    p.rotate_left();
    p.direction
}

#[test]
fn reverse_is_involutive() {
    for d in ALL_DIRECTIONS {
        assert_eq!(reversed(reversed(d)), d);
    }
}

#[test]
fn reverse_swaps_opposites() {
    assert_eq!(reversed(Direction::Up), Direction::Down);
    assert_eq!(reversed(Direction::Down), Direction::Up);
    assert_eq!(reversed(Direction::Left), Direction::Right);
    assert_eq!(reversed(Direction::Right), Direction::Left);
}

#[test]
fn rotations_are_mutual_inverses() {
    for d in ALL_DIRECTIONS {
        assert_eq!(rotated_left(rotated_right(d)), d);
        assert_eq!(rotated_right(rotated_left(d)), d);
    }
}

#[test]
fn rotate_right_is_the_clockwise_cycle() {
    assert_eq!(rotated_right(Direction::Right), Direction::Down);
    assert_eq!(rotated_right(Direction::Down), Direction::Left);
    assert_eq!(rotated_right(Direction::Left), Direction::Up);
    assert_eq!(rotated_right(Direction::Up), Direction::Right);
}

#[test]
fn rotation_is_a_four_cycle() {
    for d in ALL_DIRECTIONS {
        let four = rotated_right(rotated_right(rotated_right(rotated_right(d))));
        assert_eq!(four, d);
        let four_left = rotated_left(rotated_left(rotated_left(rotated_left(d))));
        assert_eq!(four_left, d);
    }
}

#[test]
fn parsing_accepts_canonical_tokens() {
    assert_eq!(parse_direction("right"), Some(Direction::Right));
    assert_eq!(parse_direction("up"), Some(Direction::Up));
    assert_eq!(parse_direction("left"), Some(Direction::Left));
    assert_eq!(parse_direction("down"), Some(Direction::Down));
}

#[test]
fn parsing_is_case_insensitive() {
    assert_eq!(parse_direction("Right"), Some(Direction::Right));
    assert_eq!(parse_direction("RIGHT"), Some(Direction::Right));
    assert_eq!(parse_direction("uP"), Some(Direction::Up));
    assert_eq!(parse_direction("UP"), Some(Direction::Up));
    assert_eq!(parse_direction("LeFt"), Some(Direction::Left));
    assert_eq!(parse_direction("DOWN"), Some(Direction::Down));
}

#[test]
fn parsing_rejects_other_tokens() {
    assert_eq!(parse_direction(""), None);
    assert_eq!(parse_direction("banana"), None);
    assert_eq!(parse_direction("rightt"), None);
    assert_eq!(parse_direction("righ"), None);
    assert_eq!(parse_direction("up "), None);
}

#[test]
fn tokens_round_trip_through_parsing() {
    assert_eq!(Direction::Right.token(), "right");
    assert_eq!(Direction::Up.token(), "up");
    assert_eq!(Direction::Left.token(), "left");
    assert_eq!(Direction::Down.token(), "down");
    for d in ALL_DIRECTIONS {
        assert_eq!(parse_direction(&d.token()), Some(d));
    }
}

#[test]
fn parse_failure_yields_the_caller_default() {
    assert_eq!(parse_direction_or("banana", Direction::Right), Direction::Right);
    assert_eq!(parse_direction_or("banana", Direction::Down), Direction::Down);
    assert_eq!(parse_direction_or("", Direction::Up), Direction::Up);
    assert_eq!(parse_direction_or("LEFT", Direction::Right), Direction::Left);
}
