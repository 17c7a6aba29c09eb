//! The player's pose: a facing direction plus an integer grid cell, with the
//! four pose-changing operations the command state machine uses.

use vstd::prelude::*;

use crate::direction::Direction;

verus! {

/// A facing direction together with a grid cell.  Owned by the movement
/// engine; only accepted movement and rotation commands change it.
#[derive(Clone, Copy, PartialEq, Eq, Debug, Structural)]
pub struct Position {
    pub direction: Direction,
    pub x: i32,
    pub z: i32,
}

impl Position {
    /// The cell one step in the facing direction: Right is +x, Left is -x,
    /// Up is -z, Down is +z.
    pub open spec fn spec_forward(self) -> Position {
        match self.direction {
            Direction::Right => Position { x: (self.x + 1) as i32, ..self },
            Direction::Up => Position { z: (self.z - 1) as i32, ..self },
            Direction::Left => Position { x: (self.x - 1) as i32, ..self },
            Direction::Down => Position { z: (self.z + 1) as i32, ..self },
        }
    }

    /// The cell one step against the facing direction.
    pub open spec fn spec_backward(self) -> Position {
        match self.direction {
            Direction::Right => Position { x: (self.x - 1) as i32, ..self },
            Direction::Up => Position { z: (self.z + 1) as i32, ..self },
            Direction::Left => Position { x: (self.x + 1) as i32, ..self },
            Direction::Down => Position { z: (self.z - 1) as i32, ..self },
        }
    }

    /// The same cell, facing one clockwise rotation further.
    pub open spec fn spec_rotate_right(self) -> Position {
        Position { direction: self.direction.spec_rotate_right(), ..self }
    }

    /// The same cell, facing one counter-clockwise rotation further.
    pub open spec fn spec_rotate_left(self) -> Position {
        Position { direction: self.direction.spec_rotate_left(), ..self }
    }

    /// The coordinate a forward step would change stays within `i32`.
    pub open spec fn forward_in_bounds(self) -> bool {
        match self.direction {
            Direction::Right => self.x < i32::MAX,
            Direction::Up => self.z > i32::MIN,
            Direction::Left => self.x > i32::MIN,
            Direction::Down => self.z < i32::MAX,
        }
    }

    /// The coordinate a backward step would change stays within `i32`.
    pub open spec fn backward_in_bounds(self) -> bool {
        match self.direction {
            Direction::Right => self.x > i32::MIN,
            Direction::Up => self.z < i32::MAX,
            Direction::Left => self.x < i32::MAX,
            Direction::Down => self.z > i32::MIN,
        }
    }

    /// Advance one cell in the facing direction.
    pub fn go_forward(&mut self)
        requires
            old(self).forward_in_bounds(),
        ensures
            *final(self) == old(self).spec_forward(),
    {
        match self.direction {
            Direction::Right => self.x = self.x + 1,
            Direction::Up => self.z = self.z - 1,
            Direction::Left => self.x = self.x - 1,
            Direction::Down => self.z = self.z + 1,
        };
    }

    /// Retreat one cell against the facing direction.
    pub fn go_backward(&mut self)
        requires
            old(self).backward_in_bounds(),
        ensures
            *final(self) == old(self).spec_backward(),
    {
        match self.direction {
            Direction::Right => self.x = self.x - 1,
            Direction::Up => self.z = self.z + 1,
            Direction::Left => self.x = self.x + 1,
            Direction::Down => self.z = self.z - 1,
        };
    }

    /// Turn clockwise; the cell is unchanged.
    pub fn rotate_right(&mut self)
        ensures
            *final(self) == old(self).spec_rotate_right(),
    {
        self.direction = match self.direction {
            Direction::Right => Direction::Down,
            Direction::Up => Direction::Right,
            Direction::Left => Direction::Up,
            Direction::Down => Direction::Left,
        };
    }

    /// Turn counter-clockwise; the cell is unchanged.
    pub fn rotate_left(&mut self)
        ensures
            *final(self) == old(self).spec_rotate_left(),
    {
        self.direction = match self.direction {
            Direction::Right => Direction::Up,
            Direction::Up => Direction::Left,
            Direction::Left => Direction::Down,
            Direction::Down => Direction::Right,
        };
    }
}

/// A forward step then a backward step (or the other way round) from the
/// same facing returns to the original pose.
pub proof fn lemma_step_back_and_forth(p: Position)
    requires
        p.forward_in_bounds(),
        p.backward_in_bounds(),
    ensures
        p.spec_forward().spec_backward() == p,
        p.spec_backward().spec_forward() == p,
{
}

} // verus!
