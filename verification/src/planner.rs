//! Motion outcome planning: the declarative timed transition descriptor an
//! animation layer plays back.  An accepted command glides to the new pose;
//! a rejected step bounces part of the way toward the blocked cell and
//! back.  The planner only describes the motion; it never mutates the
//! logical pose.

use vstd::prelude::*;

use crate::position::Position;

verus! {

/// Milliseconds a successful glide takes.
pub const GLIDE_MS: u64 = 200;

/// Milliseconds of the outward phase of a bounce.
pub const BOUNCE_ADVANCE_MS: u64 = 50;

/// Milliseconds of the return phase of a bounce.
pub const BOUNCE_RETURN_MS: u64 = 100;

/// How far the outward phase of a bounce travels toward the blocked cell,
/// in percent of the full step.
pub const BOUNCE_ADVANCE_PERCENT: u64 = 10;

/// The interpolation curve of a transition phase.
#[derive(Clone, Copy, PartialEq, Eq, Debug, Structural)]
pub enum Easing {
    QuadraticOut,
}

/// A declarative timed pose transition.  Translation interpolates linearly
/// and rotation by shortest arc between the named poses; playback is owned
/// by the animation layer.
#[derive(Clone, Copy, PartialEq, Eq, Debug, Structural)]
pub enum TransitionPlan {
    /// Single phase, from the old pose all the way to the new one.
    Glide { from: Position, to: Position, duration_ms: u64, easing: Easing },
    /// Two phases: `advance_percent` of the way from `from` toward
    /// `toward`, then back to `from`.  Net displacement is zero; it only
    /// signals that the move was refused.
    Bounce {
        from: Position,
        toward: Position,
        advance_percent: u64,
        advance_ms: u64,
        return_ms: u64,
        easing: Easing,
    },
}

/// The glide descriptor for an accepted command.
pub open spec fn spec_glide(from: Position, to: Position) -> TransitionPlan {
    TransitionPlan::Glide { from, to, duration_ms: GLIDE_MS, easing: Easing::QuadraticOut }
}

/// The bounce descriptor for a rejected step toward `toward`.
pub open spec fn spec_bounce(from: Position, toward: Position) -> TransitionPlan {
    TransitionPlan::Bounce {
        from,
        toward,
        advance_percent: BOUNCE_ADVANCE_PERCENT,
        advance_ms: BOUNCE_ADVANCE_MS,
        return_ms: BOUNCE_RETURN_MS,
        easing: Easing::QuadraticOut,
    }
}

impl TransitionPlan {
    /// The phase durations sum without overflowing.
    pub open spec fn spec_durations_fit(self) -> bool {
        match self {
            TransitionPlan::Glide { .. } => true,
            TransitionPlan::Bounce { advance_ms, return_ms, .. } => advance_ms + return_ms
                <= u64::MAX,
        }
    }

    /// The total playback time over all phases, in milliseconds.
    pub open spec fn spec_total_ms(self) -> int {
        match self {
            TransitionPlan::Glide { duration_ms, .. } => duration_ms as int,
            TransitionPlan::Bounce { advance_ms, return_ms, .. } => advance_ms + return_ms,
        }
    }

    /// The total playback time over all phases, in milliseconds.
    pub fn total_ms(&self) -> (r: u64)
        requires
            self.spec_durations_fit(),
        ensures
            r as int == self.spec_total_ms(),
    {
        match self {
            TransitionPlan::Glide { duration_ms, .. } => *duration_ms,
            TransitionPlan::Bounce { advance_ms, return_ms, .. } => *advance_ms + *return_ms,
        }
    }
}

/// The descriptor for an accepted command: one 200 ms quadratic-ease-out
/// phase from the old pose to the new one.
pub fn plan_glide(from: &Position, to: &Position) -> (r: TransitionPlan)
    ensures
        r == spec_glide(*from, *to),
{
    TransitionPlan::Glide {
        from: *from,
        to: *to,
        duration_ms: GLIDE_MS,
        easing: Easing::QuadraticOut,
    }
}

/// The descriptor for a rejected step: 50 ms moving 10% of the way toward
/// the blocked cell, then 100 ms back, both with quadratic ease-out.
pub fn plan_bounce(from: &Position, toward: &Position) -> (r: TransitionPlan)
    ensures
        r == spec_bounce(*from, *toward),
{
    TransitionPlan::Bounce {
        from: *from,
        toward: *toward,
        advance_percent: BOUNCE_ADVANCE_PERCENT,
        advance_ms: BOUNCE_ADVANCE_MS,
        return_ms: BOUNCE_RETURN_MS,
        easing: Easing::QuadraticOut,
    }
}

/// A bounce always plays for 150 ms in total and returns to the pose it
/// started from.
pub proof fn lemma_bounce_shape(from: Position, toward: Position)
    ensures
        spec_bounce(from, toward).spec_total_ms() == 150,
        spec_bounce(from, toward) matches TransitionPlan::Bounce { from: f, .. } && f == from,
{
}

/// A glide always plays for 200 ms.
pub proof fn lemma_glide_duration(from: Position, to: Position)
    ensures
        spec_glide(from, to).spec_total_ms() == 200,
{
}

} // verus!
