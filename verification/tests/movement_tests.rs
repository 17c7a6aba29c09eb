use dungeon::direction::Direction;
use dungeon::dungeon::{Entity, EntityType, Level, Tile, Walls};
use dungeon::engine::{apply_command, process_command, resolve_message, Command};
use dungeon::planner::{Easing, TransitionPlan};
use dungeon::position::Position;

fn walls_up_only() -> Walls {
    Walls { up: true, right: false, down: false, left: false }
}

fn open_walls() -> Walls {
    Walls { up: false, right: false, down: false, left: false }
}

fn level_with_tiles(tiles: Vec<Tile>) -> Level {
    Level { width: 4, length: 4, tiles, entities: Vec::new() }
}

#[test]
fn blocked_forward_step_is_rejected_and_bounces_150_ms() {
    // Scenario: tile (0, 0) has a wall facing up, the player faces up.
    let level = level_with_tiles(vec![Tile { x: 0, z: 0, walls: walls_up_only() }]);
    let mut position = Position { direction: Direction::Up, x: 0, z: 0 };
    let feedback = process_command(&level, &mut position, Command::StepForward);
    assert!(!feedback.accepted);
    assert_eq!(position, Position { direction: Direction::Up, x: 0, z: 0 });
    assert_eq!(feedback.message, None);
    match feedback.plan {
        TransitionPlan::Bounce { from, toward, advance_percent, advance_ms, return_ms, easing } => {
            assert_eq!(from, Position { direction: Direction::Up, x: 0, z: 0 });
            assert_eq!(toward, Position { direction: Direction::Up, x: 0, z: -1 });
            assert_eq!(advance_percent, 10);
            assert_eq!(advance_ms, 50);
            assert_eq!(return_ms, 100);
            assert_eq!(easing, Easing::QuadraticOut);
        }
        TransitionPlan::Glide { .. } => panic!("a rejected step must bounce"),
    }
    assert_eq!(feedback.plan.total_ms(), 150);
}

#[test]
fn unblocked_forward_step_is_accepted_and_glides_200_ms() {
    // Scenario: tile (0, 0) has no walls, the player faces right.
    let level = level_with_tiles(vec![Tile { x: 0, z: 0, walls: open_walls() }]);
    let mut position = Position { direction: Direction::Right, x: 0, z: 0 };
    let feedback = process_command(&level, &mut position, Command::StepForward);
    assert!(feedback.accepted);
    assert_eq!(position, Position { direction: Direction::Right, x: 1, z: 0 });
    assert_eq!(feedback.message, Some(String::new()));
    match feedback.plan {
        TransitionPlan::Glide { from, to, duration_ms, easing } => {
            assert_eq!(from, Position { direction: Direction::Right, x: 0, z: 0 });
            assert_eq!(to, Position { direction: Direction::Right, x: 1, z: 0 });
            assert_eq!(duration_ms, 200);
            assert_eq!(easing, Easing::QuadraticOut);
        }
        TransitionPlan::Bounce { .. } => panic!("an accepted step must glide"),
    }
    assert_eq!(feedback.plan.total_ms(), 200);
}

#[test]
fn accepted_step_onto_a_cat_emits_its_message() {
    // Scenario: the cell the accepted step lands on holds a cat saying hello.
    let level = Level {
        width: 4,
        length: 4,
        tiles: vec![Tile { x: 0, z: 0, walls: open_walls() }],
        entities: vec![Entity {
            x: 1,
            z: 0,
            entity_type: EntityType::Cat,
            direction: Direction::Left,
            message: Some(String::from("hello")),
        }],
    };
    let mut position = Position { direction: Direction::Right, x: 0, z: 0 };
    let feedback = process_command(&level, &mut position, Command::StepForward);
    assert!(feedback.accepted);
    assert_eq!(position, Position { direction: Direction::Right, x: 1, z: 0 });
    assert_eq!(feedback.message, Some(String::from("hello")));
}

#[test]
fn backward_step_tests_the_reversed_wall() {
    // A wall facing up blocks a backward step for a player facing down.
    let level = level_with_tiles(vec![Tile { x: 0, z: 0, walls: walls_up_only() }]);
    let mut position = Position { direction: Direction::Down, x: 0, z: 0 };
    let feedback = process_command(&level, &mut position, Command::StepBackward);
    assert!(!feedback.accepted);
    assert_eq!(position, Position { direction: Direction::Down, x: 0, z: 0 });

    // The same wall does not block a backward step for a player facing up.
    let mut position = Position { direction: Direction::Up, x: 0, z: 0 };
    let feedback = process_command(&level, &mut position, Command::StepBackward);
    assert!(feedback.accepted);
    assert_eq!(position, Position { direction: Direction::Up, x: 0, z: 1 });
}

#[test]
fn missing_tile_is_open_space() {
    // No tile record at the player's cell: the step is accepted.
    let level = level_with_tiles(Vec::new());
    let mut position = Position { direction: Direction::Left, x: 2, z: 3 };
    let feedback = process_command(&level, &mut position, Command::StepForward);
    assert!(feedback.accepted);
    assert_eq!(position, Position { direction: Direction::Left, x: 1, z: 3 });
}

#[test]
fn only_the_current_tile_is_consulted() {
    // The destination tile is fully walled, yet the step is accepted:
    // the wall test reads the current tile only.
    let fortress = Walls { up: true, right: true, down: true, left: true };
    let level = level_with_tiles(vec![
        Tile { x: 0, z: 0, walls: open_walls() },
        Tile { x: 1, z: 0, walls: fortress },
    ]);
    let mut position = Position { direction: Direction::Right, x: 0, z: 0 };
    let feedback = process_command(&level, &mut position, Command::StepForward);
    assert!(feedback.accepted);
    assert_eq!(position, Position { direction: Direction::Right, x: 1, z: 0 });
}

#[test]
fn rotations_are_always_accepted_and_keep_the_cell() {
    // Even a fully walled tile never blocks a rotation.
    let fortress = Walls { up: true, right: true, down: true, left: true };
    let level = level_with_tiles(vec![Tile { x: 0, z: 0, walls: fortress }]);
    let mut position = Position { direction: Direction::Up, x: 0, z: 0 };

    let feedback = process_command(&level, &mut position, Command::RotateLeft);
    assert!(feedback.accepted);
    assert_eq!(position, Position { direction: Direction::Left, x: 0, z: 0 });

    let feedback = process_command(&level, &mut position, Command::RotateRight);
    assert!(feedback.accepted);
    assert_eq!(position, Position { direction: Direction::Up, x: 0, z: 0 });
}

#[test]
fn rotation_re_emits_the_current_cell_message() {
    // Rotating in place re-resolves the occupancy message.
    let level = Level {
        width: 4,
        length: 4,
        tiles: Vec::new(),
        entities: vec![Entity {
            x: 0,
            z: 0,
            entity_type: EntityType::Cat,
            direction: Direction::Up,
            message: Some(String::from("again")),
        }],
    };
    let mut position = Position { direction: Direction::Up, x: 0, z: 0 };
    let first = process_command(&level, &mut position, Command::RotateLeft);
    assert_eq!(first.message, Some(String::from("again")));
    let second = process_command(&level, &mut position, Command::RotateLeft);
    assert_eq!(second.message, Some(String::from("again")));
}

#[test]
fn apply_command_reports_the_attempted_cell_on_rejection() {
    let level = level_with_tiles(vec![Tile { x: 5, z: 5, walls: walls_up_only() }]);
    let position = Position { direction: Direction::Up, x: 5, z: 5 };
    let outcome = apply_command(&level, &position, Command::StepForward);
    assert!(!outcome.accepted);
    assert_eq!(outcome.position, position);
    assert_eq!(outcome.attempted, Some(Position { direction: Direction::Up, x: 5, z: 4 }));
}

#[test]
fn get_entity_never_returns_a_player_start() {
    // A PlayerStart sits at (2, 2); it must not be reported as occupant.
    let level = Level {
        width: 4,
        length: 4,
        tiles: Vec::new(),
        entities: vec![Entity {
            x: 2,
            z: 2,
            entity_type: EntityType::PlayerStart,
            direction: Direction::Up,
            message: Some(String::from("never shown")),
        }],
    };
    assert!(level.get_entity(2, 2).is_none());
    assert_eq!(resolve_message(&level, 2, 2), String::new());
}

#[test]
fn get_entity_returns_the_cat_at_the_cell() {
    let level = Level {
        width: 4,
        length: 4,
        tiles: Vec::new(),
        entities: vec![
            Entity {
                x: 0,
                z: 1,
                entity_type: EntityType::Cat,
                direction: Direction::Down,
                message: None,
            },
            Entity {
                x: 3,
                z: 1,
                entity_type: EntityType::Cat,
                direction: Direction::Down,
                message: Some(String::from("mew")),
            },
        ],
    };
    let occupant = level.get_entity(3, 1).expect("the cat must be found");
    assert_eq!(occupant.entity_type, EntityType::Cat);
    assert_eq!(occupant.message, Some(String::from("mew")));
    assert!(level.get_entity(1, 1).is_none());
    // A cat without a message resolves to the empty text.
    assert_eq!(resolve_message(&level, 0, 1), String::new());
    assert_eq!(resolve_message(&level, 3, 1), String::from("mew"));
}

#[test]
fn get_tile_finds_the_first_match() {
    let level = level_with_tiles(vec![
        Tile { x: 1, z: 1, walls: open_walls() },
        Tile { x: 1, z: 1, walls: walls_up_only() },
    ]);
    let tile = level.get_tile(1, 1).expect("the tile must be found");
    assert_eq!(tile.walls, open_walls());
    assert!(level.get_tile(0, 1).is_none());
}

#[test]
fn has_wall_reads_the_wall_set() {
    let tile = Tile { x: 0, z: 0, walls: walls_up_only() };
    assert!(tile.has_wall(&Direction::Up));
    assert!(!tile.has_wall(&Direction::Down));
    assert!(!tile.has_wall(&Direction::Left));
    assert!(!tile.has_wall(&Direction::Right));
}

#[test]
fn position_moves_one_cell_per_step() {
    let mut p = Position { direction: Direction::Down, x: 7, z: -2 };
    p.go_forward();
    assert_eq!(p, Position { direction: Direction::Down, x: 7, z: -1 });
    p.go_backward();
    assert_eq!(p, Position { direction: Direction::Down, x: 7, z: -2 });
    let mut q = Position { direction: Direction::Left, x: 0, z: 0 };
    q.go_forward();
    assert_eq!(q, Position { direction: Direction::Left, x: -1, z: 0 });
}
