//! Facing and patrol directions, and how input and motion select them.

use vstd::prelude::*;

use crate::geom::WorldVec;

verus! {

/// A facing or patrol direction. Characters face left or right; the
/// vertically patrolling enemy moves up and down.
#[derive(Clone, Copy, Debug, PartialEq, Eq, Structural)]
pub enum Direction {
    Left,
    Right,
    Up,
    Down,
}

/// The direction asked for by the pressed state of the left and right input
/// actions: one pressed alone picks its direction, both or neither pick none.
pub open spec fn spec_direction_from_input(left_pressed: bool, right_pressed: bool) -> Option<
    Direction,
> {
    if right_pressed && !left_pressed {
        Some(Direction::Right)
    } else if left_pressed && !right_pressed {
        Some(Direction::Left)
    } else {
        None
    }
}

/// The facing after a motion update: horizontal motion turns the entity that
/// way, rest keeps the old facing.
pub open spec fn spec_direction_update(old_direction: Direction, velocity_x: int) -> Direction {
    if velocity_x > 0 {
        Direction::Right
    } else if velocity_x < 0 {
        Direction::Left
    } else {
        old_direction
    }
}

/// The sign a direction contributes to motion along its axis.
pub open spec fn spec_direction_sign(d: Direction) -> int {
    match d {
        Direction::Left => -1,
        Direction::Down => -1,
        Direction::Right => 1,
        Direction::Up => 1,
    }
}

impl Direction {
    pub fn from_input(left_pressed: bool, right_pressed: bool) -> (r: Option<Direction>)
        ensures
            r == spec_direction_from_input(left_pressed, right_pressed),
    {
        if right_pressed && !left_pressed {
            Some(Direction::Right)
        } else if left_pressed && !right_pressed {
            Some(Direction::Left)
        } else {
            None
        }
    }

    /// Turns the entity toward its horizontal motion; at rest the facing is
    /// kept.
    pub fn update(&mut self, velocity: &WorldVec)
        ensures
            *final(self) == spec_direction_update(*old(self), velocity.x as int),
    {
        if velocity.x > 0 {
            *self = Direction::Right;
        }
        if velocity.x < 0 {
            *self = Direction::Left;
        }
    }

    /// The sign this direction contributes to motion along its axis.
    pub fn sign(self) -> (s: i64)
        ensures
            s == spec_direction_sign(self),
    {
        match self {
            Direction::Left => -1,
            Direction::Down => -1,
            Direction::Right => 1,
            Direction::Up => 1,
        }
    }
}

impl Default for Direction {
    /// Characters start out facing right.
    fn default() -> (r: Self)
        ensures
            r == Direction::Right,
    {
        Direction::Right
    }
}

} // verus!
