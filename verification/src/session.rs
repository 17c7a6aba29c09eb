//! Session state around the core: the persisted record of a play session
//! and the decisions taken when it is restored.  The storage mechanism
//! itself lives outside the library.

use vstd::prelude::*;

use crate::dungeon::{spec_start_position, DungeonLevel, Level};
use crate::position::Position;

verus! {

/// The persisted session record: the player's pose and the active level
/// index.
#[derive(Clone, Copy, PartialEq, Eq, Debug, Structural)]
pub struct SaveData {
    pub dungeon_level: usize,
    pub position: Position,
}

/// Resolve what a load handed back.  A saved record restores its level
/// index and pose; no save — and corrupt save data, which the caller
/// treats the same — resets to level 0 with no pose override.
pub fn resolve_load(loaded: Option<SaveData>) -> (r: (DungeonLevel, Option<Position>))
    ensures
        r == match loaded {
            Some(sd) => (DungeonLevel(sd.dungeon_level), Some(sd.position)),
            None => (DungeonLevel(0usize), None::<Position>),
        },
{
    match loaded {
        Some(sd) => (DungeonLevel(sd.dungeon_level), Some(sd.position)),
        None => (DungeonLevel(0), None),
    }
}

/// The pose to spawn the player in: the restored pose if one was given,
/// else the level's own start position.
pub fn spawn_position(level: &Level, saved: Option<Position>) -> (r: Position)
    ensures
        r == match saved {
            Some(p) => p,
            None => spec_start_position(level.entities@),
        },
{
    match saved {
        Some(p) => p,
        None => level.start_position(),
    }
}

} // verus!
