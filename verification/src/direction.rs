//! The four grid directions, their reversal and rotation operators, and the
//! case-insensitive parser for the four canonical direction tokens.

use vstd::prelude::*;

use crate::text::{eq_ignore_ascii_case, fold_scalar, matches_ci};

verus! {

/// A facing or wall direction on the grid.
#[derive(Clone, Copy, PartialEq, Eq, Hash, Debug, Structural)]
pub enum Direction {
    Right,
    Up,
    Left,
    Down,
}

impl Direction {
    /// The opposite direction: Up <-> Down, Left <-> Right.
    pub open spec fn spec_reverse(self) -> Direction {
        match self {
            Direction::Right => Direction::Left,
            Direction::Up => Direction::Down,
            Direction::Left => Direction::Right,
            Direction::Down => Direction::Up,
        }
    }

    /// One step of the clockwise 4-cycle: Right -> Down -> Left -> Up -> Right.
    pub open spec fn spec_rotate_right(self) -> Direction {
        match self {
            Direction::Right => Direction::Down,
            Direction::Up => Direction::Right,
            Direction::Left => Direction::Up,
            Direction::Down => Direction::Left,
        }
    }

    /// One step of the counter-clockwise 4-cycle, the inverse of
    /// [`Direction::spec_rotate_right`].
    pub open spec fn spec_rotate_left(self) -> Direction {
        match self {
            Direction::Right => Direction::Up,
            Direction::Up => Direction::Left,
            Direction::Left => Direction::Down,
            Direction::Down => Direction::Right,
        }
    }

    /// The opposite direction.
    pub fn reverse(&self) -> (r: Direction)
        ensures
            r == self.spec_reverse(),
    {
        match *self {
            Direction::Right => Direction::Left,
            Direction::Up => Direction::Down,
            Direction::Left => Direction::Right,
            Direction::Down => Direction::Up,
        }
    }

    /// The canonical lower-case token naming this direction.
    pub open spec fn spec_token(self) -> Seq<char> {
        match self {
            Direction::Right => seq!['r', 'i', 'g', 'h', 't'],
            Direction::Up => seq!['u', 'p'],
            Direction::Left => seq!['l', 'e', 'f', 't'],
            Direction::Down => seq!['d', 'o', 'w', 'n'],
        }
    }

    /// The canonical lower-case token naming this direction.
    pub fn token(&self) -> (r: String)
        ensures
            r@ == self.spec_token(),
    {
        proof {
            reveal_strlit("right");
            reveal_strlit("up");
            reveal_strlit("left");
            reveal_strlit("down");
            assert("right"@ =~= seq!['r', 'i', 'g', 'h', 't']);
            assert("up"@ =~= seq!['u', 'p']);
            assert("left"@ =~= seq!['l', 'e', 'f', 't']);
            assert("down"@ =~= seq!['d', 'o', 'w', 'n']);
        }
        match *self {
            Direction::Right => "right".to_owned(),
            Direction::Up => "up".to_owned(),
            Direction::Left => "left".to_owned(),
            Direction::Down => "down".to_owned(),
        }
    }
}

/// Reverse is involutive: reversing twice returns the original direction.
pub proof fn lemma_reverse_involutive(d: Direction)
    ensures
        d.spec_reverse().spec_reverse() == d,
{
}

/// The two rotations are mutual inverses: either one undoes the other.
pub proof fn lemma_rotations_mutual_inverse(d: Direction)
    ensures
        d.spec_rotate_right().spec_rotate_left() == d,
        d.spec_rotate_left().spec_rotate_right() == d,
{
}

/// Each rotation is a 4-cycle: four applications return the original
/// direction.
pub proof fn lemma_rotation_four_cycle(d: Direction)
    ensures
        d.spec_rotate_right().spec_rotate_right().spec_rotate_right().spec_rotate_right() == d,
        d.spec_rotate_left().spec_rotate_left().spec_rotate_left().spec_rotate_left() == d,
{
}

/// What parsing a direction token yields: the four canonical tokens,
/// matched ignoring ASCII case, name their direction; anything else is
/// `None`.
pub open spec fn spec_parse_direction(s: Seq<char>) -> Option<Direction> {
    if matches_ci(s, seq!['r', 'i', 'g', 'h', 't']) {
        Some(Direction::Right)
    } else if matches_ci(s, seq!['u', 'p']) {
        Some(Direction::Up)
    } else if matches_ci(s, seq!['l', 'e', 'f', 't']) {
        Some(Direction::Left)
    } else if matches_ci(s, seq!['d', 'o', 'w', 'n']) {
        Some(Direction::Down)
    } else {
        None
    }
}

/// Parse a direction token, ignoring ASCII case; unrecognized tokens give
/// `None`.
pub fn parse_direction(s: &str) -> (r: Option<Direction>)
    ensures
        r == spec_parse_direction(s@),
{
    let right: Vec<char> = vec!['r', 'i', 'g', 'h', 't'];
    if eq_ignore_ascii_case(s, &right) {
        return Some(Direction::Right);
    }
    let up: Vec<char> = vec!['u', 'p'];
    if eq_ignore_ascii_case(s, &up) {
        return Some(Direction::Up);
    }
    let left: Vec<char> = vec!['l', 'e', 'f', 't'];
    if eq_ignore_ascii_case(s, &left) {
        return Some(Direction::Left);
    }
    let down: Vec<char> = vec!['d', 'o', 'w', 'n'];
    if eq_ignore_ascii_case(s, &down) {
        return Some(Direction::Down);
    }
    None
}

/// Parse a direction token, falling back to the caller's default on an
/// unrecognized token; parse failure is never an error.
pub fn parse_direction_or(s: &str, default: Direction) -> (r: Direction)
    ensures
        r == match spec_parse_direction(s@) {
            Some(d) => d,
            None => default,
        },
{
    match parse_direction(s) {
        Some(d) => d,
        None => default,
    }
}

/// Printing and parsing round-trip: each direction's canonical token
/// parses back to that direction.
pub proof fn lemma_token_round_trip(d: Direction)
    ensures
        spec_parse_direction(d.spec_token()) == Some(d),
{
}

/// Direction parsing is case-insensitive: two tokens whose characters fold
/// to the same scalars parse to the same result.
pub proof fn lemma_parse_direction_case_insensitive(s: Seq<char>, t: Seq<char>)
    requires
        s.len() == t.len(),
        forall|i: int| 0 <= i < s.len() ==> fold_scalar(s[i]) == fold_scalar(t[i]),
    ensures
        spec_parse_direction(s) == spec_parse_direction(t),
{
}

} // verus!
