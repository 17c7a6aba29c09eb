//! Level ingestion: the plain records of an authored level document, and
//! the builder that turns them into the normalized dungeon model.  The
//! caller hands the document in already parsed into these records;
//! ingestion itself performs no I/O.

use vstd::prelude::*;

use crate::direction::{parse_direction_or, spec_parse_direction, Direction};
use crate::dungeon::{
    parse_entity_type, spec_parse_entity_type, Dungeon, Entity, EntityModel, Level, LevelModel,
    Tile, Walls,
};
use crate::tags::{parse_wall_tag, spec_walls_of_tag};
use crate::text::str_eq;

verus! {

/// One named field of an entity instance.  `value` carries the field's
/// text when the authored value was a string, and `None` otherwise.
#[derive(Clone, PartialEq, Eq, Debug)]
pub struct FieldRecord {
    pub identifier: String,
    pub value: Option<String>,
}

/// One authored point-entity instance: its kind identifier, its grid
/// cell, and its named fields.
#[derive(Clone, PartialEq, Eq, Debug)]
pub struct EntityRecord {
    pub identifier: String,
    pub grid_x: i32,
    pub grid_z: i32,
    pub fields: Vec<FieldRecord>,
}

/// One placed tile: its pixel position and the tileset tile id it shows.
#[derive(Clone, Copy, PartialEq, Eq, Debug, Structural)]
pub struct TilePlacementRecord {
    pub px_x: i32,
    pub px_z: i32,
    pub tile_id: i32,
}

/// The per-tile-id metadata string of a tileset.
#[derive(Clone, PartialEq, Eq, Debug)]
pub struct TileCustomData {
    pub tile_id: i32,
    pub data: String,
}

/// A tileset definition: its id and its per-tile-id metadata.
#[derive(Clone, PartialEq, Eq, Debug)]
pub struct TilesetRecord {
    pub uid: i32,
    pub custom_data: Vec<TileCustomData>,
}

/// One layer of a level: an entity layer holds entity instances, a tile
/// layer holds tile placements and the id of the tileset it references.
#[derive(Clone, PartialEq, Eq, Debug)]
pub struct LayerRecord {
    pub identifier: String,
    pub grid_size: i32,
    pub tileset_uid: Option<i32>,
    pub entities: Vec<EntityRecord>,
    pub tiles: Vec<TilePlacementRecord>,
}

/// One level record: its pixel dimensions and its layers.
#[derive(Clone, PartialEq, Eq, Debug)]
pub struct LevelRecord {
    pub px_wid: i32,
    pub px_hei: i32,
    pub layers: Vec<LayerRecord>,
}

/// A whole authored level document.
#[derive(Clone, PartialEq, Eq, Debug)]
pub struct LevelDocument {
    pub default_grid_size: i32,
    pub tilesets: Vec<TilesetRecord>,
    pub levels: Vec<LevelRecord>,
}

/// Why ingestion failed.  The document is build-time asset data, so every
/// one of these is fatal to the caller; none is a runtime recovery path.
#[derive(Clone, Copy, PartialEq, Eq, Debug, Structural)]
pub enum BuildError {
    /// An entity instance's identifier names no known entity kind.
    UnknownEntityIdentifier,
    /// A tile layer references no tileset, or one the document lacks.
    MissingTileset,
    /// A grid size is zero or negative, so no cell can be derived.
    InvalidGridSize,
    /// A pixel dimension or position is negative.
    InvalidDimensions,
}

/// The name of the layer holding entity instances.
pub open spec fn entities_layer_name() -> Seq<char> {
    seq!['E', 'n', 't', 'i', 't', 'i', 'e', 's']
}

/// The name of the layer holding tile placements.
pub open spec fn tiles_layer_name() -> Seq<char> {
    seq!['T', 'i', 'l', 'e', 's']
}

/// The entity field naming its facing direction.
pub open spec fn direction_field_name() -> Seq<char> {
    seq!['D', 'i', 'r', 'e', 'c', 't', 'i', 'o', 'n']
}

/// The entity field carrying its message text.
pub open spec fn message_field_name() -> Seq<char> {
    seq!['M', 'e', 's', 's', 'a', 'g', 'e']
}

/// The first field named `name`, if any.
pub open spec fn find_field(fields: Seq<FieldRecord>, name: Seq<char>) -> Option<FieldRecord>
    decreases fields.len(),
{
    if fields.len() == 0 {
        None
    } else if fields[0].identifier@ == name {
        Some(fields[0])
    } else {
        find_field(fields.drop_first(), name)
    }
}

/// The first tileset with the given uid, if any.
pub open spec fn find_tileset(tilesets: Seq<TilesetRecord>, uid: int) -> Option<TilesetRecord>
    decreases tilesets.len(),
{
    if tilesets.len() == 0 {
        None
    } else if tilesets[0].uid == uid {
        Some(tilesets[0])
    } else {
        find_tileset(tilesets.drop_first(), uid)
    }
}

/// The first custom-data entry for the given tile id, if any.
pub open spec fn find_custom_data(data: Seq<TileCustomData>, tile_id: int) -> Option<
    TileCustomData,
>
    decreases data.len(),
{
    if data.len() == 0 {
        None
    } else if data[0].tile_id == tile_id {
        Some(data[0])
    } else {
        find_custom_data(data.drop_first(), tile_id)
    }
}

/// The facing an entity instance's fields give it: the `Direction` field's
/// string value if it parses, and `Right` whenever the field is absent,
/// not a string, or unparseable — parse failure here is never an error.
pub open spec fn spec_entity_direction(fields: Seq<FieldRecord>) -> Direction {
    match find_field(fields, direction_field_name()) {
        Some(f) => match f.value {
            Some(s) => match spec_parse_direction(s@) {
                Some(d) => d,
                None => Direction::Right,
            },
            None => Direction::Right,
        },
        None => Direction::Right,
    }
}

/// The message an entity instance's fields give it: the `Message` field's
/// string value, or `None` when the field is absent or not a string.
pub open spec fn spec_entity_message(fields: Seq<FieldRecord>) -> Option<Seq<char>> {
    match find_field(fields, message_field_name()) {
        Some(f) => match f.value {
            Some(s) => Some(s@),
            None => None,
        },
        None => None,
    }
}

/// Build one entity: the identifier must name a known kind; coordinates
/// come straight from the authored grid cell.
pub open spec fn spec_build_entity(rec: EntityRecord) -> Result<EntityModel, BuildError> {
    match spec_parse_entity_type(rec.identifier@) {
        Some(t) => Ok(
            EntityModel {
                x: rec.grid_x as int,
                z: rec.grid_z as int,
                entity_type: t,
                direction: spec_entity_direction(rec.fields@),
                message: spec_entity_message(rec.fields@),
            },
        ),
        None => Err(BuildError::UnknownEntityIdentifier),
    }
}

/// Build an entity list in order, stopping at the first failure.
pub open spec fn spec_build_entities(recs: Seq<EntityRecord>, acc: Seq<EntityModel>) -> Result<
    Seq<EntityModel>,
    BuildError,
>
    decreases recs.len(),
{
    if recs.len() == 0 {
        Ok(acc)
    } else {
        match spec_build_entity(recs[0]) {
            Ok(e) => spec_build_entities(recs.drop_first(), acc.push(e)),
            Err(err) => Err(err),
        }
    }
}

/// The wall set of tile `tile_id` under `tileset`: the tileset's
/// custom-data tag parsed leniently; no entry means no walls.
pub open spec fn spec_tile_walls(tileset: TilesetRecord, tile_id: int) -> Walls {
    match find_custom_data(tileset.custom_data@, tile_id) {
        Some(d) => spec_walls_of_tag(d.data@),
        None => Walls::spec_empty(),
    }
}

/// Build one placed tile: its cell is its pixel position divided by the
/// layer's grid size, truncated.
pub open spec fn spec_build_tile(
    grid_size: int,
    tileset: TilesetRecord,
    p: TilePlacementRecord,
) -> Result<Tile, BuildError> {
    if p.px_x < 0 || p.px_z < 0 {
        Err(BuildError::InvalidDimensions)
    } else {
        Ok(
            Tile {
                x: (p.px_x as int / grid_size) as i32,
                z: (p.px_z as int / grid_size) as i32,
                walls: spec_tile_walls(tileset, p.tile_id as int),
            },
        )
    }
}

/// Build a tile list in order, stopping at the first failure.
pub open spec fn spec_build_tiles(
    grid_size: int,
    tileset: TilesetRecord,
    ps: Seq<TilePlacementRecord>,
    acc: Seq<Tile>,
) -> Result<Seq<Tile>, BuildError>
    decreases ps.len(),
{
    if ps.len() == 0 {
        Ok(acc)
    } else {
        match spec_build_tile(grid_size, tileset, ps[0]) {
            Ok(t) => spec_build_tiles(grid_size, tileset, ps.drop_first(), acc.push(t)),
            Err(err) => Err(err),
        }
    }
}

/// Walk a level's layers in order.  An entity layer replaces the entity
/// list built so far, a tile layer — after resolving its tileset and
/// validating its grid size — replaces the tile list; any other layer is
/// ignored.  The last layer of each kind wins.
pub open spec fn spec_build_layers(
    tilesets: Seq<TilesetRecord>,
    layers: Seq<LayerRecord>,
    acc: (Seq<Tile>, Seq<EntityModel>),
) -> Result<(Seq<Tile>, Seq<EntityModel>), BuildError>
    decreases layers.len(),
{
    if layers.len() == 0 {
        Ok(acc)
    } else {
        let l = layers[0];
        if l.identifier@ == entities_layer_name() {
            match spec_build_entities(l.entities@, Seq::empty()) {
                Ok(es) => spec_build_layers(tilesets, layers.drop_first(), (acc.0, es)),
                Err(err) => Err(err),
            }
        } else if l.identifier@ == tiles_layer_name() {
            match l.tileset_uid {
                Some(uid) => match find_tileset(tilesets, uid as int) {
                    Some(ts) => if l.grid_size <= 0 {
                        Err(BuildError::InvalidGridSize)
                    } else {
                        match spec_build_tiles(l.grid_size as int, ts, l.tiles@, Seq::empty()) {
                            Ok(ts2) => spec_build_layers(
                                tilesets,
                                layers.drop_first(),
                                (ts2, acc.1),
                            ),
                            Err(err) => Err(err),
                        }
                    },
                    None => Err(BuildError::MissingTileset),
                },
                None => Err(BuildError::MissingTileset),
            }
        } else {
            spec_build_layers(tilesets, layers.drop_first(), acc)
        }
    }
}

/// Build one level: its dimensions are the pixel dimensions divided by
/// the document's default grid size, truncated; its tiles and entities
/// come from its layers.
pub open spec fn spec_build_level(doc: LevelDocument, rec: LevelRecord) -> Result<
    LevelModel,
    BuildError,
> {
    if doc.default_grid_size <= 0 {
        Err(BuildError::InvalidGridSize)
    } else if rec.px_wid < 0 || rec.px_hei < 0 {
        Err(BuildError::InvalidDimensions)
    } else {
        match spec_build_layers(doc.tilesets@, rec.layers@, (Seq::empty(), Seq::empty())) {
            Ok(pair) => Ok(
                LevelModel {
                    width: rec.px_wid as int / doc.default_grid_size as int,
                    length: rec.px_hei as int / doc.default_grid_size as int,
                    tiles: pair.0,
                    entities: pair.1,
                },
            ),
            Err(err) => Err(err),
        }
    }
}

/// Build the level list in document order, stopping at the first failure.
pub open spec fn spec_build_levels(
    doc: LevelDocument,
    recs: Seq<LevelRecord>,
    acc: Seq<LevelModel>,
) -> Result<Seq<LevelModel>, BuildError>
    decreases recs.len(),
{
    if recs.len() == 0 {
        Ok(acc)
    } else {
        match spec_build_level(doc, recs[0]) {
            Ok(l) => spec_build_levels(doc, recs.drop_first(), acc.push(l)),
            Err(err) => Err(err),
        }
    }
}

/// What building a whole document yields: its levels in document order,
/// or the first ingestion error.
pub open spec fn spec_build(doc: LevelDocument) -> Result<Seq<LevelModel>, BuildError> {
    spec_build_levels(doc, doc.levels@, Seq::empty())
}

proof fn lemma_find_field_skip(fields: Seq<FieldRecord>, name: Seq<char>, i: int)
    requires
        0 <= i <= fields.len(),
        forall|j: int| 0 <= j < i ==> fields[j].identifier@ != name,
    ensures
        find_field(fields, name) == find_field(fields.skip(i), name),
    decreases i,
{
    if i > 0 {
        lemma_find_field_skip(fields.drop_first(), name, i - 1);
        assert(fields.drop_first().skip(i - 1) =~= fields.skip(i));
        assert(fields.skip(0) =~= fields);
    } else {
        assert(fields.skip(0) =~= fields);
    }
}

proof fn lemma_find_tileset_skip(tilesets: Seq<TilesetRecord>, uid: int, i: int)
    requires
        0 <= i <= tilesets.len(),
        forall|j: int| 0 <= j < i ==> tilesets[j].uid != uid,
    ensures
        find_tileset(tilesets, uid) == find_tileset(tilesets.skip(i), uid),
    decreases i,
{
    if i > 0 {
        lemma_find_tileset_skip(tilesets.drop_first(), uid, i - 1);
        assert(tilesets.drop_first().skip(i - 1) =~= tilesets.skip(i));
        assert(tilesets.skip(0) =~= tilesets);
    } else {
        assert(tilesets.skip(0) =~= tilesets);
    }
}

proof fn lemma_find_custom_data_skip(data: Seq<TileCustomData>, tile_id: int, i: int)
    requires
        0 <= i <= data.len(),
        forall|j: int| 0 <= j < i ==> data[j].tile_id != tile_id,
    ensures
        find_custom_data(data, tile_id) == find_custom_data(data.skip(i), tile_id),
    decreases i,
{
    if i > 0 {
        lemma_find_custom_data_skip(data.drop_first(), tile_id, i - 1);
        assert(data.drop_first().skip(i - 1) =~= data.skip(i));
        assert(data.skip(0) =~= data);
    } else {
        assert(data.skip(0) =~= data);
    }
}

/// The first field named `name`, if any.
fn get_field<'a>(fields: &'a Vec<FieldRecord>, name: &str) -> (r: Option<&'a FieldRecord>)
    ensures
        match r {
            Some(f) => find_field(fields@, name@) == Some(*f),
            None => find_field(fields@, name@) is None,
        },
{
    let n = fields.len();
    for i in 0..n
        invariant
            n == fields@.len(),
            forall|j: int| 0 <= j < i ==> fields@[j].identifier@ != name@,
    {
        if str_eq(fields[i].identifier.as_str(), name) {
            proof {
                lemma_find_field_skip(fields@, name@, i as int);
                assert(fields@.skip(i as int)[0] == fields@[i as int]);
            }
            return Some(&fields[i]);
        }
    }
    proof {
        lemma_find_field_skip(fields@, name@, n as int);
    }
    None
}

/// The first tileset with the given uid, if any.
fn get_tileset<'a>(tilesets: &'a Vec<TilesetRecord>, uid: i32) -> (r: Option<&'a TilesetRecord>)
    ensures
        match r {
            Some(t) => find_tileset(tilesets@, uid as int) == Some(*t),
            None => find_tileset(tilesets@, uid as int) is None,
        },
{
    let n = tilesets.len();
    for i in 0..n
        invariant
            n == tilesets@.len(),
            forall|j: int| 0 <= j < i ==> tilesets@[j].uid != uid,
    {
        if tilesets[i].uid == uid {
            proof {
                lemma_find_tileset_skip(tilesets@, uid as int, i as int);
                assert(tilesets@.skip(i as int)[0] == tilesets@[i as int]);
            }
            return Some(&tilesets[i]);
        }
    }
    proof {
        lemma_find_tileset_skip(tilesets@, uid as int, n as int);
    }
    None
}

/// The first custom-data entry for the given tile id, if any.
fn get_custom_data<'a>(data: &'a Vec<TileCustomData>, tile_id: i32) -> (r: Option<
    &'a TileCustomData,
>)
    ensures
        match r {
            Some(d) => find_custom_data(data@, tile_id as int) == Some(*d),
            None => find_custom_data(data@, tile_id as int) is None,
        },
{
    let n = data.len();
    for i in 0..n
        invariant
            n == data@.len(),
            forall|j: int| 0 <= j < i ==> data@[j].tile_id != tile_id,
    {
        if data[i].tile_id == tile_id {
            proof {
                lemma_find_custom_data_skip(data@, tile_id as int, i as int);
                assert(data@.skip(i as int)[0] == data@[i as int]);
            }
            return Some(&data[i]);
        }
    }
    proof {
        lemma_find_custom_data_skip(data@, tile_id as int, n as int);
    }
    None
}

/// Build one entity instance.
fn build_entity(rec: &EntityRecord) -> (r: Result<Entity, BuildError>)
    ensures
        match r {
            Ok(e) => spec_build_entity(*rec) == Ok::<EntityModel, BuildError>(e@),
            Err(err) => spec_build_entity(*rec) == Err::<EntityModel, BuildError>(err),
        },
{
    let entity_type = match parse_entity_type(rec.identifier.as_str()) {
        Some(t) => t,
        None => {
            return Err(BuildError::UnknownEntityIdentifier);
        },
    };
    proof {
        reveal_strlit("Direction");
        assert("Direction"@ =~= direction_field_name());
        reveal_strlit("Message");
        assert("Message"@ =~= message_field_name());
    }
    let direction = match get_field(&rec.fields, "Direction") {
        Some(f) => match &f.value {
            Some(s) => parse_direction_or(s.as_str(), Direction::Right),
            None => Direction::Right,
        },
        None => Direction::Right,
    };
    let message = match get_field(&rec.fields, "Message") {
        Some(f) => match &f.value {
            Some(s) => Some(s.clone()),
            None => None,
        },
        None => None,
    };
    Ok(Entity { x: rec.grid_x, z: rec.grid_z, entity_type, direction, message })
}

/// Build an entity layer's instances in order; the first unknown
/// identifier aborts the build.
fn build_entities(recs: &Vec<EntityRecord>) -> (r: Result<Vec<Entity>, BuildError>)
    ensures
        match r {
            Ok(es) => spec_build_entities(recs@, Seq::empty()) == Ok::<
                Seq<EntityModel>,
                BuildError,
            >(es@.map_values(|e: Entity| e@)),
            Err(err) => spec_build_entities(recs@, Seq::empty()) == Err::<
                Seq<EntityModel>,
                BuildError,
            >(err),
        },
{
    let ghost goal = spec_build_entities(recs@, Seq::empty());
    let mut out: Vec<Entity> = Vec::new();
    let n = recs.len();
    proof {
        assert(recs@.skip(0) =~= recs@);
        assert(out@.map_values(|e: Entity| e@) =~= Seq::<EntityModel>::empty());
    }
    for i in 0..n
        invariant
            goal == spec_build_entities(recs@, Seq::empty()),
            n == recs@.len(),
            goal == spec_build_entities(recs@.skip(i as int), out@.map_values(|e: Entity| e@)),
    {
        match build_entity(&recs[i]) {
            Ok(e) => {
                proof {
                    assert(recs@.skip(i as int)[0] == recs@[i as int]);
                    assert(recs@.skip(i as int).drop_first() =~= recs@.skip(i + 1));
                    assert(out@.push(e).map_values(|e: Entity| e@) =~= out@.map_values(
                        |e: Entity| e@,
                    ).push(e@));
                }
                out.push(e);
            },
            Err(err) => {
                proof {
                    assert(recs@.skip(i as int)[0] == recs@[i as int]);
                }
                return Err(err);
            },
        }
    }
    proof {
        assert(recs@.skip(n as int) =~= Seq::<EntityRecord>::empty());
    }
    Ok(out)
}

/// Build one placed tile under the layer's grid size and tileset.
fn build_tile(grid_size: i32, tileset: &TilesetRecord, p: &TilePlacementRecord) -> (r: Result<
    Tile,
    BuildError,
>)
    requires
        grid_size > 0,
    ensures
        match r {
            Ok(t) => spec_build_tile(grid_size as int, *tileset, *p) == Ok::<Tile, BuildError>(t),
            Err(err) => spec_build_tile(grid_size as int, *tileset, *p) == Err::<
                Tile,
                BuildError,
            >(err),
        },
{
    if p.px_x < 0 || p.px_z < 0 {
        return Err(BuildError::InvalidDimensions);
    }
    proof {
        assert(p.px_x as int / grid_size as int <= p.px_x as int && p.px_x as int / grid_size as int
            >= 0) by (nonlinear_arith)
            requires
                p.px_x >= 0,
                grid_size >= 1,
        ;
        assert(p.px_z as int / grid_size as int <= p.px_z as int && p.px_z as int / grid_size as int
            >= 0) by (nonlinear_arith)
            requires
                p.px_z >= 0,
                grid_size >= 1,
        ;
    }
    let x = ((p.px_x as u64) / (grid_size as u64)) as i32;
    let z = ((p.px_z as u64) / (grid_size as u64)) as i32;
    let walls = match get_custom_data(&tileset.custom_data, p.tile_id) {
        Some(d) => parse_wall_tag(d.data.as_str()),
        None => Walls::empty(),
    };
    Ok(Tile { x, z, walls })
}

/// Build a tile layer's placements in order; a negative pixel position
/// aborts the build.
fn build_tiles(grid_size: i32, tileset: &TilesetRecord, ps: &Vec<TilePlacementRecord>) -> (r:
    Result<Vec<Tile>, BuildError>)
    requires
        grid_size > 0,
    ensures
        match r {
            Ok(ts) => spec_build_tiles(grid_size as int, *tileset, ps@, Seq::empty()) == Ok::<
                Seq<Tile>,
                BuildError,
            >(ts@),
            Err(err) => spec_build_tiles(grid_size as int, *tileset, ps@, Seq::empty()) == Err::<
                Seq<Tile>,
                BuildError,
            >(err),
        },
{
    let ghost goal = spec_build_tiles(grid_size as int, *tileset, ps@, Seq::empty());
    let mut out: Vec<Tile> = Vec::new();
    let n = ps.len();
    proof {
        assert(ps@.skip(0) =~= ps@);
    }
    for i in 0..n
        invariant
            goal == spec_build_tiles(grid_size as int, *tileset, ps@, Seq::empty()),
            grid_size > 0,
            n == ps@.len(),
            goal == spec_build_tiles(grid_size as int, *tileset, ps@.skip(i as int), out@),
    {
        match build_tile(grid_size, tileset, &ps[i]) {
            Ok(t) => {
                proof {
                    assert(ps@.skip(i as int)[0] == ps@[i as int]);
                    assert(ps@.skip(i as int).drop_first() =~= ps@.skip(i + 1));
                }
                out.push(t);
            },
            Err(err) => {
                proof {
                    assert(ps@.skip(i as int)[0] == ps@[i as int]);
                }
                return Err(err);
            },
        }
    }
    proof {
        assert(ps@.skip(n as int) =~= Seq::<TilePlacementRecord>::empty());
    }
    Ok(out)
}

/// Walk a level's layers in order, building its tile and entity lists;
/// the last layer of each kind wins.
fn build_layers(tilesets: &Vec<TilesetRecord>, layers: &Vec<LayerRecord>) -> (r: Result<
    (Vec<Tile>, Vec<Entity>),
    BuildError,
>)
    ensures
        match r {
            Ok(pair) => spec_build_layers(tilesets@, layers@, (Seq::empty(), Seq::empty())) == Ok::<
                (Seq<Tile>, Seq<EntityModel>),
                BuildError,
            >((pair.0@, pair.1@.map_values(|e: Entity| e@))),
            Err(err) => spec_build_layers(tilesets@, layers@, (Seq::empty(), Seq::empty()))
                == Err::<(Seq<Tile>, Seq<EntityModel>), BuildError>(err),
        },
{
    let ghost goal = spec_build_layers(tilesets@, layers@, (Seq::empty(), Seq::empty()));
    let mut tiles: Vec<Tile> = Vec::new();
    let mut entities: Vec<Entity> = Vec::new();
    let n = layers.len();
    proof {
        assert(layers@.skip(0) =~= layers@);
        assert(entities@.map_values(|e: Entity| e@) =~= Seq::<EntityModel>::empty());
    }
    for i in 0..n
        invariant
            goal == spec_build_layers(tilesets@, layers@, (Seq::empty(), Seq::empty())),
            n == layers@.len(),
            goal == spec_build_layers(
                tilesets@,
                layers@.skip(i as int),
                (tiles@, entities@.map_values(|e: Entity| e@)),
            ),
    {
        proof {
            assert(layers@.skip(i as int)[0] == layers@[i as int]);
            assert(layers@.skip(i as int).drop_first() =~= layers@.skip(i + 1));
            reveal_strlit("Entities");
            assert("Entities"@ =~= entities_layer_name());
            reveal_strlit("Tiles");
            assert("Tiles"@ =~= tiles_layer_name());
        }
        let layer = &layers[i];
        if str_eq(layer.identifier.as_str(), "Entities") {
            match build_entities(&layer.entities) {
                Ok(es) => {
                    entities = es;
                },
                Err(err) => {
                    return Err(err);
                },
            }
        } else if str_eq(layer.identifier.as_str(), "Tiles") {
            let uid = match layer.tileset_uid {
                Some(uid) => uid,
                None => {
                    return Err(BuildError::MissingTileset);
                },
            };
            let tileset = match get_tileset(tilesets, uid) {
                Some(t) => t,
                None => {
                    return Err(BuildError::MissingTileset);
                },
            };
            if layer.grid_size <= 0 {
                return Err(BuildError::InvalidGridSize);
            }
            match build_tiles(layer.grid_size, tileset, &layer.tiles) {
                Ok(ts) => {
                    tiles = ts;
                },
                Err(err) => {
                    return Err(err);
                },
            }
        }
    }
    proof {
        assert(layers@.skip(n as int) =~= Seq::<LayerRecord>::empty());
    }
    Ok((tiles, entities))
}

/// Build one level record.
fn build_level(doc: &LevelDocument, rec: &LevelRecord) -> (r: Result<Level, BuildError>)
    ensures
        match r {
            Ok(l) => spec_build_level(*doc, *rec) == Ok::<LevelModel, BuildError>(l@),
            Err(err) => spec_build_level(*doc, *rec) == Err::<LevelModel, BuildError>(err),
        },
{
    if doc.default_grid_size <= 0 {
        return Err(BuildError::InvalidGridSize);
    }
    if rec.px_wid < 0 || rec.px_hei < 0 {
        return Err(BuildError::InvalidDimensions);
    }
    proof {
        assert(rec.px_wid as int / doc.default_grid_size as int <= rec.px_wid as int && rec.px_wid
            as int / doc.default_grid_size as int >= 0) by (nonlinear_arith)
            requires
                rec.px_wid >= 0,
                doc.default_grid_size >= 1,
        ;
        assert(rec.px_hei as int / doc.default_grid_size as int <= rec.px_hei as int && rec.px_hei
            as int / doc.default_grid_size as int >= 0) by (nonlinear_arith)
            requires
                rec.px_hei >= 0,
                doc.default_grid_size >= 1,
        ;
    }
    let width = ((rec.px_wid as u64) / (doc.default_grid_size as u64)) as i32;
    let length = ((rec.px_hei as u64) / (doc.default_grid_size as u64)) as i32;
    match build_layers(&doc.tilesets, &rec.layers) {
        Ok(pair) => {
            let (tiles, entities) = pair;
            Ok(Level { width, length, tiles, entities })
        },
        Err(err) => Err(err),
    }
}

impl Dungeon {
    /// Build the dungeon model from an authored level document: every
    /// level in document order, each with its derived dimensions, its
    /// tiles-with-walls and its typed entities.  Any schema violation is
    /// reported as the first error met; the caller treats it as fatal.
    pub fn build(doc: &LevelDocument) -> (r: Result<Dungeon, BuildError>)
        ensures
            match r {
                Ok(d) => spec_build(*doc) == Ok::<Seq<LevelModel>, BuildError>(d@),
                Err(err) => spec_build(*doc) == Err::<Seq<LevelModel>, BuildError>(err),
            },
    {
        let ghost goal = spec_build(*doc);
        let mut levels: Vec<Level> = Vec::new();
        let n = doc.levels.len();
        proof {
            assert(doc.levels@.skip(0) =~= doc.levels@);
            assert(levels@.map_values(|l: Level| l@) =~= Seq::<LevelModel>::empty());
        }
        for i in 0..n
            invariant
                goal == spec_build(*doc),
                n == doc.levels@.len(),
                goal == spec_build_levels(
                    *doc,
                    doc.levels@.skip(i as int),
                    levels@.map_values(|l: Level| l@),
                ),
        {
            match build_level(doc, &doc.levels[i]) {
                Ok(l) => {
                    proof {
                        assert(doc.levels@.skip(i as int)[0] == doc.levels@[i as int]);
                        assert(doc.levels@.skip(i as int).drop_first() =~= doc.levels@.skip(i + 1));
                        assert(levels@.push(l).map_values(|l: Level| l@) =~= levels@.map_values(
                            |l: Level| l@,
                        ).push(l@));
                    }
                    levels.push(l);
                },
                Err(err) => {
                    proof {
                        assert(doc.levels@.skip(i as int)[0] == doc.levels@[i as int]);
                    }
                    return Err(err);
                },
            }
        }
        proof {
            assert(doc.levels@.skip(n as int) =~= Seq::<LevelRecord>::empty());
        }
        Ok(Dungeon { levels })
    }
}

proof fn lemma_build_levels_ok(
    doc: LevelDocument,
    recs: Seq<LevelRecord>,
    acc: Seq<LevelModel>,
    out: Seq<LevelModel>,
)
    requires
        spec_build_levels(doc, recs, acc) == Ok::<Seq<LevelModel>, BuildError>(out),
    ensures
        out.len() == acc.len() + recs.len(),
        forall|j: int| 0 <= j < acc.len() ==> out[j] == acc[j],
        forall|j: int|
            0 <= j < recs.len() ==> spec_build_level(doc, recs[j]) == Ok::<
                LevelModel,
                BuildError,
            >(out[acc.len() + j]),
    decreases recs.len(),
{
    if recs.len() == 0 {
    } else {
        match spec_build_level(doc, recs[0]) {
            Ok(l) => {
                lemma_build_levels_ok(doc, recs.drop_first(), acc.push(l), out);
                assert forall|j: int| 0 <= j < recs.len() implies spec_build_level(doc, recs[j])
                    == Ok::<LevelModel, BuildError>(out[acc.len() + j]) by {
                    if j == 0 {
                        assert(out[acc.len() as int] == acc.push(l)[acc.len() as int]);
                    } else {
                        assert(recs.drop_first()[j - 1] == recs[j]);
                        assert(spec_build_level(doc, recs.drop_first()[j - 1]) == Ok::<
                            LevelModel,
                            BuildError,
                        >(out[acc.push(l).len() + (j - 1)]));
                    }
                }
            },
            Err(_) => {
                assert(false);
            },
        }
    }
}

/// Dimension derivation: every level a successful build yields has
/// `width == px_wid / grid_size` and `length == px_hei / grid_size`
/// (floor division, as both operands are non-negative), one level per
/// document record, in order.
pub proof fn lemma_dimension_derivation(doc: LevelDocument, out: Seq<LevelModel>)
    requires
        spec_build(doc) == Ok::<Seq<LevelModel>, BuildError>(out),
    ensures
        out.len() == doc.levels@.len(),
        forall|i: int|
            0 <= i < out.len() ==> out[i].width == doc.levels@[i].px_wid as int
                / doc.default_grid_size as int && out[i].length == doc.levels@[i].px_hei as int
                / doc.default_grid_size as int,
{
    lemma_build_levels_ok(doc, doc.levels@, Seq::empty(), out);
    assert forall|i: int| 0 <= i < out.len() implies out[i].width == doc.levels@[i].px_wid as int
        / doc.default_grid_size as int && out[i].length == doc.levels@[i].px_hei as int
        / doc.default_grid_size as int by {
        assert(spec_build_level(doc, doc.levels@[i]) == Ok::<LevelModel, BuildError>(out[i]));
    }
}

} // verus!
