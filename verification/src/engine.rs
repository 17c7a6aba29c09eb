//! The grid movement and collision state machine: one discrete command per
//! invocation, resolved against the current tile's wall set, together with
//! the motion plan and the occupancy message the caller surfaces.

use vstd::prelude::*;

use crate::direction::Direction;
use crate::dungeon::{spec_occupant, tile_at, Entity, Level, Tile};
use crate::planner::{plan_bounce, plan_glide, spec_bounce, spec_glide, TransitionPlan};
use crate::position::Position;

verus! {

/// The four abstract commands the input layer maps to.
#[derive(Clone, Copy, PartialEq, Eq, Debug, Structural)]
pub enum Command {
    StepForward,
    StepBackward,
    RotateLeft,
    RotateRight,
}

/// What one command resolved to: the verdict, the resulting logical pose
/// (unchanged on rejection), and on rejection the would-be destination the
/// bounce animation aims at.
#[derive(Clone, Copy, PartialEq, Eq, Debug)]
pub struct CommandOutcome {
    pub accepted: bool,
    pub position: Position,
    pub attempted: Option<Position>,
}

/// Whether a step across the edge facing `facing` is blocked at `pos`:
/// only a wall of the tile at the *current* cell blocks; a missing tile
/// record is open space and never blocks.
pub open spec fn spec_blocked(tiles: Seq<Tile>, pos: Position, facing: Direction) -> bool {
    match tile_at(tiles, pos.x as int, pos.z as int) {
        Some(t) => t.walls.spec_has(facing),
        None => false,
    }
}

/// The state machine's transition function.  Rotations are always
/// accepted and only turn the facing.  A forward step tests the current
/// tile's wall in the facing direction, a backward step the wall in the
/// reversed facing; an accepted step moves exactly one cell, a rejected
/// one keeps the pose and records the attempted destination.
pub open spec fn spec_apply(tiles: Seq<Tile>, pos: Position, command: Command) -> CommandOutcome {
    match command {
        Command::RotateLeft => CommandOutcome {
            accepted: true,
            position: pos.spec_rotate_left(),
            attempted: None,
        },
        Command::RotateRight => CommandOutcome {
            accepted: true,
            position: pos.spec_rotate_right(),
            attempted: None,
        },
        Command::StepForward => if spec_blocked(tiles, pos, pos.direction) {
            CommandOutcome { accepted: false, position: pos, attempted: Some(pos.spec_forward()) }
        } else {
            CommandOutcome { accepted: true, position: pos.spec_forward(), attempted: None }
        },
        Command::StepBackward => if spec_blocked(tiles, pos, pos.direction.spec_reverse()) {
            CommandOutcome { accepted: false, position: pos, attempted: Some(pos.spec_backward()) }
        } else {
            CommandOutcome { accepted: true, position: pos.spec_backward(), attempted: None }
        },
    }
}

/// The coordinate a command may change stays within `i32`.
pub open spec fn spec_command_in_bounds(pos: Position, command: Command) -> bool {
    match command {
        Command::StepForward => pos.forward_in_bounds(),
        Command::StepBackward => pos.backward_in_bounds(),
        Command::RotateLeft => true,
        Command::RotateRight => true,
    }
}

/// Resolve one command against the level's wall model.
pub fn apply_command(level: &Level, position: &Position, command: Command) -> (r: CommandOutcome)
    requires
        spec_command_in_bounds(*position, command),
    ensures
        r == spec_apply(level.tiles@, *position, command),
{
    match command {
        Command::RotateLeft => {
            let mut p = *position;
            p.rotate_left();
            CommandOutcome { accepted: true, position: p, attempted: None }
        },
        Command::RotateRight => {
            let mut p = *position;
            p.rotate_right();
            CommandOutcome { accepted: true, position: p, attempted: None }
        },
        Command::StepForward => {
            let blocked = match level.get_tile(position.x, position.z) {
                Some(t) => t.has_wall(&position.direction),
                None => false,
            };
            let mut p = *position;
            p.go_forward();
            if blocked {
                CommandOutcome { accepted: false, position: *position, attempted: Some(p) }
            } else {
                CommandOutcome { accepted: true, position: p, attempted: None }
            }
        },
        Command::StepBackward => {
            let blocked = match level.get_tile(position.x, position.z) {
                Some(t) => t.has_wall(&position.direction.reverse()),
                None => false,
            };
            let mut p = *position;
            p.go_backward();
            if blocked {
                CommandOutcome { accepted: false, position: *position, attempted: Some(p) }
            } else {
                CommandOutcome { accepted: true, position: p, attempted: None }
            }
        },
    }
}

/// The message the occupant of cell `(x, z)` surfaces: its text if it has
/// one, and the empty text otherwise (clearing whatever was shown).
pub open spec fn spec_message(entities: Seq<Entity>, x: int, z: int) -> Seq<char> {
    match spec_occupant(entities, x, z) {
        Some(e) => match e@.message {
            Some(m) => m,
            None => Seq::empty(),
        },
        None => Seq::empty(),
    }
}

/// Re-derive the user-facing message from the current cell.  Stateless:
/// re-entering or re-rotating on the same cell re-emits the same text.
pub fn resolve_message(level: &Level, x: i32, z: i32) -> (r: String)
    ensures
        r@ == spec_message(level.entities@, x as int, z as int),
{
    match level.get_entity(x, z) {
        Some(e) => match &e.message {
            Some(m) => m.clone(),
            None => String::new(),
        },
        None => String::new(),
    }
}

/// What feedback one processed command hands the engine layer: the
/// verdict, the motion plan to play, and on acceptance the message to
/// display (possibly empty, clearing earlier text).
#[derive(Clone, PartialEq, Eq, Debug)]
pub struct CommandFeedback {
    pub accepted: bool,
    pub plan: TransitionPlan,
    pub message: Option<String>,
}

/// Process one command: advance the pose if the command is accepted, plan
/// the glide or bounce, and on acceptance re-resolve the occupancy
/// message at the resulting cell.
pub fn process_command(level: &Level, position: &mut Position, command: Command) -> (r:
    CommandFeedback)
    requires
        spec_command_in_bounds(*old(position), command),
    ensures
        ({
            let out = spec_apply(level.tiles@, *old(position), command);
            &&& *final(position) == out.position
            &&& r.accepted == out.accepted
            &&& (out.accepted ==> r.plan == spec_glide(*old(position), out.position))
            &&& (!out.accepted ==> r.plan == spec_bounce(
                *old(position),
                out.attempted.unwrap(),
            ))
            &&& (out.accepted ==> match r.message {
                Some(m) => m@ == spec_message(
                    level.entities@,
                    out.position.x as int,
                    out.position.z as int,
                ),
                None => false,
            })
            &&& (!out.accepted ==> r.message is None)
        }),
{
    let before = *position;
    let outcome = apply_command(level, position, command);
    if outcome.accepted {
        *position = outcome.position;
        let plan = plan_glide(&before, &outcome.position);
        let message = resolve_message(level, outcome.position.x, outcome.position.z);
        CommandFeedback { accepted: true, plan, message: Some(message) }
    } else {
        let attempted = match outcome.attempted {
            Some(a) => a,
            None => before,
        };
        let plan = plan_bounce(&before, &attempted);
        CommandFeedback { accepted: false, plan, message: None }
    }
}

/// A blocked step never moves: when the current tile's wall set contains
/// the tested facing, the step is rejected and the pose is unchanged.
pub proof fn lemma_blocked_step_never_moves(tiles: Seq<Tile>, pos: Position, t: Tile)
    requires
        tile_at(tiles, pos.x as int, pos.z as int) == Some(t),
    ensures
        t.walls.spec_has(pos.direction) ==> {
            let out = spec_apply(tiles, pos, Command::StepForward);
            !out.accepted && out.position == pos
        },
        t.walls.spec_has(pos.direction.spec_reverse()) ==> {
            let out = spec_apply(tiles, pos, Command::StepBackward);
            !out.accepted && out.position == pos
        },
{
}

/// An unblocked step always moves exactly one cell along the facing axis,
/// with the facing itself unchanged: forward is +x when facing Right, -x
/// when facing Left, -z when facing Up, +z when facing Down; backward is
/// the exact opposite.
pub proof fn lemma_unblocked_step_moves_one_cell(tiles: Seq<Tile>, pos: Position)
    requires
        pos.forward_in_bounds(),
        pos.backward_in_bounds(),
    ensures
        !spec_blocked(tiles, pos, pos.direction) ==> {
            let out = spec_apply(tiles, pos, Command::StepForward);
            &&& out.accepted
            &&& out.position.direction == pos.direction
            &&& match pos.direction {
                Direction::Right => out.position.x == pos.x + 1 && out.position.z == pos.z,
                Direction::Up => out.position.x == pos.x && out.position.z == pos.z - 1,
                Direction::Left => out.position.x == pos.x - 1 && out.position.z == pos.z,
                Direction::Down => out.position.x == pos.x && out.position.z == pos.z + 1,
            }
        },
        !spec_blocked(tiles, pos, pos.direction.spec_reverse()) ==> {
            let out = spec_apply(tiles, pos, Command::StepBackward);
            &&& out.accepted
            &&& out.position.direction == pos.direction
            &&& match pos.direction {
                Direction::Right => out.position.x == pos.x - 1 && out.position.z == pos.z,
                Direction::Up => out.position.x == pos.x && out.position.z == pos.z + 1,
                Direction::Left => out.position.x == pos.x + 1 && out.position.z == pos.z,
                Direction::Down => out.position.x == pos.x && out.position.z == pos.z - 1,
            }
        },
{
}

/// A rotation is always accepted and never changes the cell.
pub proof fn lemma_rotation_keeps_cell(tiles: Seq<Tile>, pos: Position)
    ensures
        ({
            let out = spec_apply(tiles, pos, Command::RotateLeft);
            out.accepted && out.position.x == pos.x && out.position.z == pos.z
        }),
        ({
            let out = spec_apply(tiles, pos, Command::RotateRight);
            out.accepted && out.position.x == pos.x && out.position.z == pos.z
        }),
{
}

} // verus!
