//! The dungeon model: tiles with per-edge wall sets, typed point entities,
//! levels and the dungeon that collects them, with first-match lookup of
//! tiles and of message-bearing occupants.

use vstd::prelude::*;

use crate::direction::Direction;
use crate::position::Position;
use crate::text::{eq_ignore_ascii_case, matches_ci};

verus! {

/// Which of a tile's four edges are blocked.  An empty set means open on
/// all four sides; duplicates collapse and order of insertion is
/// irrelevant.
#[derive(Clone, Copy, PartialEq, Eq, Debug, Structural)]
pub struct Walls {
    pub up: bool,
    pub right: bool,
    pub down: bool,
    pub left: bool,
}

impl Walls {
    /// The wall set with all four edges open.
    pub open spec fn spec_empty() -> Walls {
        Walls { up: false, right: false, down: false, left: false }
    }

    /// Whether the edge facing `d` is blocked.
    pub open spec fn spec_has(self, d: Direction) -> bool {
        match d {
            Direction::Up => self.up,
            Direction::Right => self.right,
            Direction::Down => self.down,
            Direction::Left => self.left,
        }
    }

    /// The wall set with the edge facing `d` also blocked.
    pub open spec fn spec_insert(self, d: Direction) -> Walls {
        match d {
            Direction::Up => Walls { up: true, ..self },
            Direction::Right => Walls { right: true, ..self },
            Direction::Down => Walls { down: true, ..self },
            Direction::Left => Walls { left: true, ..self },
        }
    }

    /// Insert the direction if one is given; `None` leaves the set as it
    /// is.
    pub open spec fn spec_insert_opt(self, d: Option<Direction>) -> Walls {
        match d {
            Some(d) => self.spec_insert(d),
            None => self,
        }
    }

    /// The wall set with all four edges open.
    pub fn empty() -> (r: Walls)
        ensures
            r == Walls::spec_empty(),
    {
        Walls { up: false, right: false, down: false, left: false }
    }

    /// Block the edge facing `d`.
    pub fn insert(&mut self, d: Direction)
        ensures
            *final(self) == old(self).spec_insert(d),
    {
        match d {
            Direction::Up => self.up = true,
            Direction::Right => self.right = true,
            Direction::Down => self.down = true,
            Direction::Left => self.left = true,
        }
    }
}

/// Membership after insertion: exactly the inserted direction is added.
pub proof fn lemma_walls_insert_has(w: Walls, d: Direction, q: Direction)
    ensures
        w.spec_insert(d).spec_has(q) == (q == d || w.spec_has(q)),
{
}

/// Inserting the same direction twice is the same as inserting it once:
/// duplicates collapse.
pub proof fn lemma_walls_insert_idempotent(w: Walls, d: Direction)
    ensures
        w.spec_insert(d).spec_insert(d) == w.spec_insert(d),
{
}

/// Insertions commute: the order tokens are read in does not matter.
pub proof fn lemma_walls_insert_commutes(w: Walls, a: Direction, b: Direction)
    ensures
        w.spec_insert(a).spec_insert(b) == w.spec_insert(b).spec_insert(a),
{
}

/// One grid cell's wall configuration.  Immutable once built; a level is
/// expected to hold at most one tile per cell.
#[derive(Clone, Copy, PartialEq, Eq, Debug, Structural)]
pub struct Tile {
    pub x: i32,
    pub z: i32,
    pub walls: Walls,
}

impl Tile {
    /// Whether this tile blocks movement across the edge facing
    /// `direction`.
    pub fn has_wall(&self, direction: &Direction) -> (r: bool)
        ensures
            r == self.walls.spec_has(*direction),
    {
        match *direction {
            Direction::Up => self.walls.up,
            Direction::Right => self.walls.right,
            Direction::Down => self.walls.down,
            Direction::Left => self.walls.left,
        }
    }
}

/// The closed set of point-entity kinds the authoring schema knows.
#[derive(Clone, Copy, PartialEq, Eq, Hash, Debug, Structural)]
pub enum EntityType {
    PlayerStart,
    Cat,
}

/// What parsing an entity identifier yields: the two canonical kind names,
/// matched ignoring ASCII case; anything else is `None`.
pub open spec fn spec_parse_entity_type(s: Seq<char>) -> Option<EntityType> {
    if matches_ci(s, seq!['p', 'l', 'a', 'y', 'e', 'r', 's', 't', 'a', 'r', 't']) {
        Some(EntityType::PlayerStart)
    } else if matches_ci(s, seq!['c', 'a', 't']) {
        Some(EntityType::Cat)
    } else {
        None
    }
}

/// Parse an entity identifier, ignoring ASCII case; unrecognized
/// identifiers give `None`.
pub fn parse_entity_type(s: &str) -> (r: Option<EntityType>)
    ensures
        r == spec_parse_entity_type(s@),
{
    let player_start: Vec<char> = vec!['p', 'l', 'a', 'y', 'e', 'r', 's', 't', 'a', 'r', 't'];
    if eq_ignore_ascii_case(s, &player_start) {
        return Some(EntityType::PlayerStart);
    }
    let cat: Vec<char> = vec!['c', 'a', 't'];
    if eq_ignore_ascii_case(s, &cat) {
        return Some(EntityType::Cat);
    }
    None
}

/// A point marker placed by the level author.
#[derive(Clone, PartialEq, Eq, Debug)]
pub struct Entity {
    pub x: i32,
    pub z: i32,
    pub entity_type: EntityType,
    pub direction: Direction,
    pub message: Option<String>,
}

/// The mathematical value of an [`Entity`]: the same fields with the
/// message as a character sequence.
pub struct EntityModel {
    pub x: int,
    pub z: int,
    pub entity_type: EntityType,
    pub direction: Direction,
    pub message: Option<Seq<char>>,
}

impl View for Entity {
    type V = EntityModel;

    open spec fn view(&self) -> EntityModel {
        EntityModel {
            x: self.x as int,
            z: self.z as int,
            entity_type: self.entity_type,
            direction: self.direction,
            message: match self.message {
                Some(m) => Some(m@),
                None => None,
            },
        }
    }
}

/// The first tile in `tiles` at cell `(x, z)`, if any.
pub open spec fn tile_at(tiles: Seq<Tile>, x: int, z: int) -> Option<Tile>
    decreases tiles.len(),
{
    if tiles.len() == 0 {
        None
    } else if tiles[0].x == x && tiles[0].z == z {
        Some(tiles[0])
    } else {
        tile_at(tiles.drop_first(), x, z)
    }
}

/// The first entity in `entities` at cell `(x, z)`, if any.
pub open spec fn entity_at(entities: Seq<Entity>, x: int, z: int) -> Option<Entity>
    decreases entities.len(),
{
    if entities.len() == 0 {
        None
    } else if entities[0].x == x && entities[0].z == z {
        Some(entities[0])
    } else {
        entity_at(entities.drop_first(), x, z)
    }
}

/// The occupant of cell `(x, z)`: the first entity there, except that a
/// `PlayerStart` marker is never an occupant — it only seeds the initial
/// pose.
pub open spec fn spec_occupant(entities: Seq<Entity>, x: int, z: int) -> Option<Entity> {
    match entity_at(entities, x, z) {
        Some(e) => if e.entity_type is PlayerStart {
            None
        } else {
            Some(e)
        },
        None => None,
    }
}

/// An occupant is never a `PlayerStart` marker, whatever is placed at the
/// cell.
pub proof fn lemma_occupant_excludes_player_start(entities: Seq<Entity>, x: int, z: int)
    ensures
        match spec_occupant(entities, x, z) {
            Some(e) => e.entity_type is Cat,
            None => true,
        },
{
    match spec_occupant(entities, x, z) {
        Some(e) => {
            assert(!(e.entity_type is PlayerStart));
        },
        None => {},
    }
}

proof fn lemma_tile_at_skip(tiles: Seq<Tile>, x: int, z: int, i: int)
    requires
        0 <= i <= tiles.len(),
        forall|j: int| 0 <= j < i ==> !(tiles[j].x == x && tiles[j].z == z),
    ensures
        tile_at(tiles, x, z) == tile_at(tiles.skip(i), x, z),
    decreases i,
{
    if i > 0 {
        lemma_tile_at_skip(tiles.drop_first(), x, z, i - 1);
        assert(tiles.drop_first().skip(i - 1) =~= tiles.skip(i));
        assert(tiles.skip(0) =~= tiles);
    } else {
        assert(tiles.skip(0) =~= tiles);
    }
}

proof fn lemma_entity_at_skip(entities: Seq<Entity>, x: int, z: int, i: int)
    requires
        0 <= i <= entities.len(),
        forall|j: int| 0 <= j < i ==> !(entities[j].x == x && entities[j].z == z),
    ensures
        entity_at(entities, x, z) == entity_at(entities.skip(i), x, z),
    decreases i,
{
    if i > 0 {
        lemma_entity_at_skip(entities.drop_first(), x, z, i - 1);
        assert(entities.drop_first().skip(i - 1) =~= entities.skip(i));
        assert(entities.skip(0) =~= entities);
    } else {
        assert(entities.skip(0) =~= entities);
    }
}

/// The pose the player starts a level in: the last `PlayerStart` marker in
/// the entity list wins; a level without one starts at the origin facing
/// left.
pub open spec fn spec_start_position(entities: Seq<Entity>) -> Position
    decreases entities.len(),
{
    if entities.len() == 0 {
        Position { direction: Direction::Left, x: 0, z: 0 }
    } else if entities.last().entity_type is PlayerStart {
        Position {
            direction: entities.last().direction,
            x: entities.last().x,
            z: entities.last().z,
        }
    } else {
        spec_start_position(entities.drop_last())
    }
}

/// The cats a level places: pose (facing and cell) of each `Cat` entity,
/// in entity-list order.
pub open spec fn spec_cat_positions(entities: Seq<Entity>) -> Seq<Position>
    decreases entities.len(),
{
    if entities.len() == 0 {
        Seq::empty()
    } else {
        let rest = spec_cat_positions(entities.drop_last());
        let e = entities.last();
        if e.entity_type is Cat {
            rest.push(Position { direction: e.direction, x: e.x, z: e.z })
        } else {
            rest
        }
    }
}

/// One playable floor: derived grid dimensions, the tile grid with its
/// walls, and the point entities.  Fixed after construction.
#[derive(Clone, PartialEq, Eq, Debug)]
pub struct Level {
    pub width: i32,
    pub length: i32,
    pub tiles: Vec<Tile>,
    pub entities: Vec<Entity>,
}

/// The mathematical value of a [`Level`].
pub struct LevelModel {
    pub width: int,
    pub length: int,
    pub tiles: Seq<Tile>,
    pub entities: Seq<EntityModel>,
}

impl View for Level {
    type V = LevelModel;

    open spec fn view(&self) -> LevelModel {
        LevelModel {
            width: self.width as int,
            length: self.length as int,
            tiles: self.tiles@,
            entities: self.entities@.map_values(|e: Entity| e@),
        }
    }
}

impl Level {
    /// The first tile at cell `(x, z)`, if the level has one there.
    pub fn get_tile(&self, x: i32, z: i32) -> (r: Option<&Tile>)
        ensures
            match r {
                Some(t) => tile_at(self.tiles@, x as int, z as int) == Some(*t),
                None => tile_at(self.tiles@, x as int, z as int) is None,
            },
    {
        let n = self.tiles.len();
        for i in 0..n
            invariant
                n == self.tiles@.len(),
                forall|j: int| 0 <= j < i ==> !(self.tiles@[j].x == x && self.tiles@[j].z == z),
        {
            if self.tiles[i].x == x && self.tiles[i].z == z {
                proof {
                    lemma_tile_at_skip(self.tiles@, x as int, z as int, i as int);
                    assert(self.tiles@.skip(i as int)[0] == self.tiles@[i as int]);
                }
                return Some(&self.tiles[i]);
            }
        }
        proof {
            lemma_tile_at_skip(self.tiles@, x as int, z as int, n as int);
        }
        None
    }

    /// The occupant of cell `(x, z)` for message purposes: the first
    /// entity there, except that `PlayerStart` markers are never
    /// returned.
    pub fn get_entity(&self, x: i32, z: i32) -> (r: Option<&Entity>)
        ensures
            match r {
                Some(e) => spec_occupant(self.entities@, x as int, z as int) == Some(*e),
                None => spec_occupant(self.entities@, x as int, z as int) is None,
            },
            r matches Some(e) ==> e.entity_type is Cat,
    {
        let n = self.entities.len();
        for i in 0..n
            invariant
                n == self.entities@.len(),
                forall|j: int|
                    0 <= j < i ==> !(self.entities@[j].x == x && self.entities@[j].z == z),
        {
            if self.entities[i].x == x && self.entities[i].z == z {
                proof {
                    lemma_entity_at_skip(self.entities@, x as int, z as int, i as int);
                    assert(self.entities@.skip(i as int)[0] == self.entities@[i as int]);
                }
                return match self.entities[i].entity_type {
                    EntityType::PlayerStart => None,
                    EntityType::Cat => Some(&self.entities[i]),
                };
            }
        }
        proof {
            lemma_entity_at_skip(self.entities@, x as int, z as int, n as int);
        }
        None
    }

    /// The pose the player starts this level in: seeded by the last
    /// `PlayerStart` marker, or the origin facing left without one.
    pub fn start_position(&self) -> (r: Position)
        ensures
            r == spec_start_position(self.entities@),
    {
        let mut pos = Position { direction: Direction::Left, x: 0, z: 0 };
        let n = self.entities.len();
        for i in 0..n
            invariant
                n == self.entities@.len(),
                pos == spec_start_position(self.entities@.take(i as int)),
        {
            match self.entities[i].entity_type {
                EntityType::PlayerStart => {
                    pos = Position {
                        direction: self.entities[i].direction,
                        x: self.entities[i].x,
                        z: self.entities[i].z,
                    };
                },
                EntityType::Cat => {},
            }
            proof {
                let taken = self.entities@.take(i + 1);
                assert(taken.drop_last() =~= self.entities@.take(i as int));
                assert(taken.last() == self.entities@[i as int]);
            }
        }
        proof {
            assert(self.entities@.take(n as int) =~= self.entities@);
        }
        pos
    }

    /// The poses of this level's cats, in entity-list order.
    pub fn cat_positions(&self) -> (r: Vec<Position>)
        ensures
            r@ == spec_cat_positions(self.entities@),
    {
        let mut out: Vec<Position> = Vec::new();
        let n = self.entities.len();
        for i in 0..n
            invariant
                n == self.entities@.len(),
                out@ == spec_cat_positions(self.entities@.take(i as int)),
        {
            match self.entities[i].entity_type {
                EntityType::Cat => {
                    out.push(Position {
                        direction: self.entities[i].direction,
                        x: self.entities[i].x,
                        z: self.entities[i].z,
                    });
                },
                EntityType::PlayerStart => {},
            }
            proof {
                let taken = self.entities@.take(i + 1);
                assert(taken.drop_last() =~= self.entities@.take(i as int));
                assert(taken.last() == self.entities@[i as int]);
            }
        }
        proof {
            assert(self.entities@.take(n as int) =~= self.entities@);
        }
        out
    }
}

/// The full set of levels loaded from one authored document; built once
/// and read-only afterwards.
#[derive(Clone, PartialEq, Eq, Debug)]
pub struct Dungeon {
    pub levels: Vec<Level>,
}

impl View for Dungeon {
    type V = Seq<LevelModel>;

    open spec fn view(&self) -> Seq<LevelModel> {
        self.levels@.map_values(|l: Level| l@)
    }
}

/// The index of the active level: session state owned by the caller, not
/// by the movement engine.
#[derive(Clone, Copy, PartialEq, Eq, Debug, Structural)]
pub struct DungeonLevel(pub usize);

} // verus!
