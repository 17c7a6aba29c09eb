use dungeon::direction::Direction;
use dungeon::dungeon::{DungeonLevel, Entity, EntityType, Level};
use dungeon::position::Position;
use dungeon::session::{resolve_load, spawn_position, SaveData};

fn marker(entity_type: EntityType, direction: Direction, x: i32, z: i32) -> Entity {
    Entity { x, z, entity_type, direction, message: None }
}

#[test]
fn a_restored_save_keeps_its_level_and_pose() {
    let saved = SaveData {
        dungeon_level: 3,
        position: Position { direction: Direction::Down, x: 4, z: 1 },
    };
    let (level, position) = resolve_load(Some(saved));
    assert_eq!(level, DungeonLevel(3));
    assert_eq!(position, Some(Position { direction: Direction::Down, x: 4, z: 1 }));
}

#[test]
fn a_missing_save_resets_to_level_zero() {
    let (level, position) = resolve_load(None);
    assert_eq!(level, DungeonLevel(0));
    assert_eq!(position, None);
}

#[test]
fn spawn_uses_the_saved_pose_when_one_was_restored() {
    let level = Level {
        width: 2,
        length: 2,
        tiles: Vec::new(),
        entities: vec![marker(EntityType::PlayerStart, Direction::Up, 1, 1)],
    };
    let saved = Position { direction: Direction::Right, x: 0, z: 1 };
    assert_eq!(spawn_position(&level, Some(saved)), saved);
}

#[test]
fn spawn_falls_back_to_the_level_start_position() {
    let level = Level {
        width: 2,
        length: 2,
        tiles: Vec::new(),
        entities: vec![marker(EntityType::PlayerStart, Direction::Up, 1, 1)],
    };
    assert_eq!(
        spawn_position(&level, None),
        Position { direction: Direction::Up, x: 1, z: 1 }
    );
}

#[test]
fn the_last_player_start_marker_wins() {
    let level = Level {
        width: 4,
        length: 4,
        tiles: Vec::new(),
        entities: vec![
            marker(EntityType::PlayerStart, Direction::Up, 1, 1),
            marker(EntityType::Cat, Direction::Down, 2, 2),
            marker(EntityType::PlayerStart, Direction::Left, 3, 3),
        ],
    };
    assert_eq!(
        level.start_position(),
        Position { direction: Direction::Left, x: 3, z: 3 }
    );
}

#[test]
fn a_level_without_a_marker_starts_at_the_origin_facing_left() {
    let level = Level {
        width: 2,
        length: 2,
        tiles: Vec::new(),
        entities: vec![marker(EntityType::Cat, Direction::Down, 1, 0)],
    };
    assert_eq!(
        level.start_position(),
        Position { direction: Direction::Left, x: 0, z: 0 }
    );
}

#[test]
fn cat_positions_list_cats_in_entity_order() {
    let level = Level {
        width: 4,
        length: 4,
        tiles: Vec::new(),
        entities: vec![
            marker(EntityType::Cat, Direction::Down, 0, 0),
            marker(EntityType::PlayerStart, Direction::Up, 1, 1),
            marker(EntityType::Cat, Direction::Right, 2, 0),
        ],
    };
    assert_eq!(
        level.cat_positions(),
        vec![
            Position { direction: Direction::Down, x: 0, z: 0 },
            Position { direction: Direction::Right, x: 2, z: 0 },
        ]
    );
}
