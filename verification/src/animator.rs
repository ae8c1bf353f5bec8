//! Phase logic of the position animator.
//!
//! An `AnimationTask` is bound to one entity (by address) and repeatedly
//! recomputes that entity's position on a circle around a fixed origin.  The
//! verified part is the task's bookkeeping: the phase counter that advances by
//! one step per tick and wraps modulo a full turn, and the cancellation signal
//! that the driving loop checks each tick.  The trigonometric position itself
//! is computed by the unverified driver from the angle this module hands out;
//! coordinates are carried as raw 32-bit patterns and never interpreted here.

use vstd::prelude::*;

verus! {

/// Number of phase steps in one full revolution.
pub const FULL_TURN: u32 = 360;

/// A registered background animation bound to one entity.
#[derive(Clone, Copy, Debug, PartialEq, Eq, Structural)]
pub struct AnimationTask {
    /// Address of the entity whose position is animated.
    pub target: u64,
    /// Raw bit pattern of the origin's first coordinate.
    pub origin_x_bits: u32,
    /// Raw bit pattern of the origin's second coordinate.
    pub origin_y_bits: u32,
    /// Raw bit pattern of the circle radius.
    pub radius_bits: u32,
    /// Current phase, always below `FULL_TURN`.
    pub phase: u32,
    /// Cancellation signal, set at teardown and checked by the driving loop.
    pub cancelled: bool,
}

impl AnimationTask {
    /// Well-formedness: the phase stays within one revolution.
    pub open spec fn wf(self) -> bool {
        self.phase < FULL_TURN
    }

    /// Creates a task at phase zero, not cancelled.
    pub fn new(target: u64, origin_x_bits: u32, origin_y_bits: u32, radius_bits: u32)
        -> (task: AnimationTask)
        ensures
            task.wf(),
            task.target == target,
            task.origin_x_bits == origin_x_bits,
            task.origin_y_bits == origin_y_bits,
            task.radius_bits == radius_bits,
            task.phase == 0,
            !task.cancelled,
    {
        AnimationTask {
            target,
            origin_x_bits,
            origin_y_bits,
            radius_bits,
            phase: 0,
            cancelled: false,
        }
    }

    /// One tick: hands out the angle (in degrees) to use for this step and
    /// advances the phase by one, wrapping after a full turn.
    pub fn tick(&mut self) -> (angle: u32)
        requires
            old(self).wf(),
        ensures
            final(self).wf(),
            angle == old(self).phase,
            final(self).phase == (old(self).phase + 1) % (FULL_TURN as int),
            final(self).target == old(self).target,
            final(self).origin_x_bits == old(self).origin_x_bits,
            final(self).origin_y_bits == old(self).origin_y_bits,
            final(self).radius_bits == old(self).radius_bits,
            final(self).cancelled == old(self).cancelled,
    {
        let angle = self.phase;
        self.phase = (self.phase + 1) % FULL_TURN;
        angle
    }

    /// Signals the driving loop to stop at its next tick.
    pub fn cancel(&mut self)
        ensures
            final(self).cancelled,
            final(self).phase == old(self).phase,
            final(self).target == old(self).target,
            final(self).origin_x_bits == old(self).origin_x_bits,
            final(self).origin_y_bits == old(self).origin_y_bits,
            final(self).radius_bits == old(self).radius_bits,
    {
        self.cancelled = true;
    }

    /// Whether the task has been told to stop.
    pub fn is_cancelled(&self) -> (r: bool)
        ensures
            r == self.cancelled,
    {
        self.cancelled
    }
}

} // verus!
