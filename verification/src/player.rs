//! The player character's jump state machine and the per-tick input decision.

use vstd::prelude::*;

use crate::direction::Direction;
use crate::direction::spec_direction_from_input;
use crate::direction::spec_direction_update;
use crate::geom::COORD_LIMIT;
use crate::velocity::JUMP_SPEED;
use crate::velocity::Velocity;
use crate::velocity::spec_accelerate;
use crate::velocity::spec_decay;

verus! {

/// The player character's physics state: `grounded` permits the next jump.
/// It is set by a landing (a ground collision from above with downward
/// velocity) and cleared by jumping.
#[derive(Clone, Copy, Debug, PartialEq, Eq, Structural)]
pub struct Character {
    pub grounded: bool,
}

impl Character {
    /// A jump request is honored only while grounded, and jumping leaves the
    /// ground.
    pub fn try_jump(&mut self) -> (r: Result<(), ()>)
        ensures
            old(self).grounded ==> r is Ok && !final(self).grounded,
            !old(self).grounded ==> r is Err && *final(self) == *old(self),
    {
        if self.grounded {
            self.grounded = false;
            Ok(())
        } else {
            Err(())
        }
    }

    /// A landing grants the next jump.
    pub fn hit_ground(&mut self)
        ensures
            final(self).grounded,
    {
        self.grounded = true;
    }
}

impl Default for Character {
    /// Characters spawn airborne; the first landing grounds them.
    fn default() -> (r: Self)
        ensures
            !r.grounded,
    {
        Character { grounded: false }
    }
}

/// One tick of input handling: the pressed left/right state accelerates or
/// decays the horizontal speed and turns the facing; a jump press is honored
/// only while grounded and then sets the upward jump impulse and clears
/// `grounded`.
pub fn input(
    player: &mut Character,
    velocity: &mut Velocity,
    direction: &mut Direction,
    left_pressed: bool,
    right_pressed: bool,
    jump_pressed: bool,
)
    requires
        -COORD_LIMIT <= old(velocity).0.x <= COORD_LIMIT,
    ensures
        final(velocity).0.x == (match spec_direction_from_input(left_pressed, right_pressed) {
            None => spec_decay(old(velocity).0.x as int),
            Some(d) => spec_accelerate(old(velocity).0.x as int, d),
        }),
        *final(direction) == (match spec_direction_from_input(left_pressed, right_pressed) {
            None => *old(direction),
            Some(d) => d,
        }),
        jump_pressed && old(player).grounded ==> !final(player).grounded && final(velocity).0.y
            == JUMP_SPEED,
        !(jump_pressed && old(player).grounded) ==> *final(player) == *old(player)
            && final(velocity).0.y == old(velocity).0.y,
        final(velocity).0.z == old(velocity).0.z,
{
    let new_direction = Direction::from_input(left_pressed, right_pressed);
    velocity.update(new_direction);
    if let Some(d) = new_direction {
        *direction = d;
    }
    if jump_pressed {
        match player.try_jump() {
            Ok(()) => {
                velocity.0.y = JUMP_SPEED;
            },
            Err(()) => {},
        }
    }
}

} // verus!
