//! The motion integrator's velocity component: gravity, input-driven
//! acceleration with inertia, and the velocity resets that collisions apply.

use vstd::prelude::*;

use crate::direction::Direction;
use crate::direction::spec_direction_sign;
use crate::geom::COORD_LIMIT;
use crate::geom::WorldVec;

verus! {

/// Fastest allowed vertical speed, in thousandths of a unit per second.
pub const MAX_FALL_SPEED: i64 = 300_000;

/// Fastest input-driven horizontal speed.
pub const MAX_RUN_SPEED: i64 = 250_000;

/// Horizontal speed gained per tick while a direction is pressed.
pub const RUN_ACCEL: i64 = 10_000;

/// Vertical speed gained downward per millisecond of frame time: gravity of
/// 500 units per second squared.
pub const GRAVITY_PER_MS: i64 = 500;

/// Upward speed set by a jump impulse.
pub const JUMP_SPEED: i64 = 500_000;

/// Longest accepted frame time, in milliseconds.
pub const MAX_TICK_MS: i64 = 1_000_000;

/// Speeds stay within this magnitude; together with `MAX_TICK_MS` it keeps
/// position integration within `i64`.
pub const SPEED_LIMIT: i64 = 1_000_000;

/// A velocity clamped symmetrically into `[-l, l]`.
pub open spec fn spec_limit(v: int, l: int) -> int {
    if v > l {
        l
    } else if v < -l {
        -l
    } else {
        v
    }
}

/// Horizontal speed after one tick without directional input: speeds under
/// the acceleration step stop outright, faster ones decay by a tenth, toward
/// zero, producing inertia rather than an instant stop.
pub open spec fn spec_decay(x: int) -> int {
    if -RUN_ACCEL < x < RUN_ACCEL {
        0
    } else if x >= 0 {
        (x * 9) / 10
    } else {
        -((-x * 9) / 10)
    }
}

/// Horizontal speed after one tick of directional input: accelerate that way,
/// capped at the run speed.
pub open spec fn spec_accelerate(x: int, d: Direction) -> int {
    spec_limit(x + RUN_ACCEL * spec_direction_sign(d), MAX_RUN_SPEED as int)
}

/// The velocity of a moving entity, in thousandths of a world unit per
/// second. The `z` component exists only to mirror the position type and
/// stays zero.
#[derive(Clone, Copy, Debug, PartialEq, Eq, Structural)]
pub struct Velocity(pub WorldVec);

impl Velocity {
    /// All components within `SPEED_LIMIT`.
    pub open spec fn in_range(self) -> bool {
        &&& -SPEED_LIMIT <= self.0.x <= SPEED_LIMIT
        &&& -SPEED_LIMIT <= self.0.y <= SPEED_LIMIT
        &&& -SPEED_LIMIT <= self.0.z <= SPEED_LIMIT
    }

    /// One tick of gravity: the vertical speed drops by the frame time's worth
    /// of gravitational acceleration and is then clamped to the fall-speed
    /// cap in both directions.
    pub fn apply_gravity(&mut self, time_ms: i64)
        requires
            0 <= time_ms <= MAX_TICK_MS,
            -COORD_LIMIT <= old(self).0.y <= COORD_LIMIT,
        ensures
            final(self).0.y == spec_limit(
                old(self).0.y - GRAVITY_PER_MS * time_ms,
                MAX_FALL_SPEED as int,
            ),
            final(self).0.x == old(self).0.x,
            final(self).0.z == old(self).0.z,
    {
        self.0.y = self.0.y - GRAVITY_PER_MS * time_ms;
        limit(&mut self.0.y, MAX_FALL_SPEED);
    }

    /// One tick of directional acceleration.
    fn increase(&mut self, direction: Direction)
        requires
            -COORD_LIMIT <= old(self).0.x <= COORD_LIMIT,
        ensures
            final(self).0.x == spec_accelerate(old(self).0.x as int, direction),
            final(self).0.y == old(self).0.y,
            final(self).0.z == old(self).0.z,
    {
        self.0.x = self.0.x + RUN_ACCEL * direction.sign();
        limit(&mut self.0.x, MAX_RUN_SPEED);
    }

    /// One tick of inertial slowdown.
    fn decrease(&mut self)
        requires
            -COORD_LIMIT <= old(self).0.x <= COORD_LIMIT,
        ensures
            final(self).0.x == spec_decay(old(self).0.x as int),
            final(self).0.y == old(self).0.y,
            final(self).0.z == old(self).0.z,
    {
        if self.0.x > -RUN_ACCEL && self.0.x < RUN_ACCEL {
            self.0.x = 0;
        } else if self.0.x >= 0 {
            self.0.x = (self.0.x * 9) / 10;
        } else {
            self.0.x = -((-self.0.x * 9) / 10);
        }
    }

    /// One tick of horizontal input handling: accelerate toward a pressed
    /// direction, decay toward rest without one.
    pub fn update(&mut self, direction: Option<Direction>)
        requires
            -COORD_LIMIT <= old(self).0.x <= COORD_LIMIT,
        ensures
            final(self).0.x == (match direction {
                None => spec_decay(old(self).0.x as int),
                Some(d) => spec_accelerate(old(self).0.x as int, d),
            }),
            final(self).0.y == old(self).0.y,
            final(self).0.z == old(self).0.z,
    {
        match direction {
            None => self.decrease(),
            Some(dir) => self.increase(dir),
        }
    }

    /// A side collision on the left zeroes any leftward speed.
    pub fn stop_left(&mut self)
        ensures
            final(self).0.x == if old(self).0.x < 0 {
                0int
            } else {
                old(self).0.x as int
            },
            final(self).0.y == old(self).0.y,
            final(self).0.z == old(self).0.z,
    {
        if self.0.x < 0 {
            self.0.x = 0;
        }
    }

    /// A side collision on the right zeroes any rightward speed.
    pub fn stop_right(&mut self)
        ensures
            final(self).0.x == if old(self).0.x > 0 {
                0int
            } else {
                old(self).0.x as int
            },
            final(self).0.y == old(self).0.y,
            final(self).0.z == old(self).0.z,
    {
        if self.0.x > 0 {
            self.0.x = 0;
        }
    }

    /// A ceiling collision zeroes any upward speed.
    pub fn stop_top(&mut self)
        ensures
            final(self).0.y == if old(self).0.y > 0 {
                0int
            } else {
                old(self).0.y as int
            },
            final(self).0.x == old(self).0.x,
            final(self).0.z == old(self).0.z,
    {
        if self.0.y > 0 {
            self.0.y = 0;
        }
    }
}

/// Clamps a speed symmetrically into `[-limit, limit]`.
fn limit(value: &mut i64, limit: i64)
    requires
        limit >= 0,
    ensures
        *final(value) == spec_limit(*old(value) as int, limit as int),
{
    if *value > limit {
        *value = limit;
    }
    if *value < -limit {
        *value = -limit;
    }
}

} // verus!
