//! Per-tick motion: gravity-driven integration of every moving entity, the
//! two enemy patrol behaviors, and the camera following the player. Within a
//! tick, integration runs before collision resolution, so collisions react to
//! the new candidate position.

use vstd::prelude::*;
use vstd::arithmetic::div_mod::lemma_fundamental_div_mod;

use crate::direction::Direction;
use crate::direction::spec_direction_sign;
use crate::geom::COORD_LIMIT;
use crate::geom::WorldVec;
use crate::velocity::GRAVITY_PER_MS;
use crate::velocity::MAX_FALL_SPEED;
use crate::velocity::MAX_TICK_MS;
use crate::velocity::SPEED_LIMIT;
use crate::velocity::Velocity;
use crate::velocity::spec_limit;

verus! {

/// Horizontal patrol speed, in thousandths of a unit per second.
pub const PATROL_SPEED: i64 = 20_000;

/// Half-width of the horizontal patrol, in thousandths of a unit.
pub const PATROL_AMPLITUDE: i64 = 20_000;

/// Upward speed of the vertical patrol.
pub const CLIMB_SPEED: i64 = 48_000;

/// Downward speed of the vertical patrol.
pub const DIVE_SPEED: i64 = 120_000;

/// Height of the vertical patrol.
pub const CLIMB_AMPLITUDE: i64 = 96_000;

/// The distance covered in `time_ms` milliseconds at `speed` thousandths of a
/// unit per second, rounded down.
pub open spec fn spec_travel(speed: int, time_ms: int) -> int {
    (speed * time_ms) / 1000
}

/// `spec_travel` as executable code.
fn travel(speed: i64, time_ms: i64) -> (r: i64)
    requires
        -SPEED_LIMIT <= speed <= SPEED_LIMIT,
        0 <= time_ms <= MAX_TICK_MS,
    ensures
        r == spec_travel(speed as int, time_ms as int),
        -SPEED_LIMIT * MAX_TICK_MS / 1000 <= r <= SPEED_LIMIT * MAX_TICK_MS / 1000,
{
    proof {
        assert(-(SPEED_LIMIT * MAX_TICK_MS) <= speed * time_ms <= SPEED_LIMIT * MAX_TICK_MS)
            by (nonlinear_arith)
            requires
                -SPEED_LIMIT <= speed <= SPEED_LIMIT,
                0 <= time_ms <= MAX_TICK_MS,
        ;
    }
    let n: i64 = speed * time_ms;
    proof {
        let q = n as int / 1000;
        lemma_fundamental_div_mod(n as int, 1000);
        assert(-(SPEED_LIMIT * MAX_TICK_MS) / 1000 <= q <= SPEED_LIMIT * MAX_TICK_MS / 1000)
            by (nonlinear_arith)
            requires
                n as int == 1000 * q + n as int % 1000,
                0 <= n as int % 1000 < 1000,
                -(SPEED_LIMIT * MAX_TICK_MS) <= n as int <= SPEED_LIMIT * MAX_TICK_MS,
        ;
    }
    let q = n.checked_div_euclid(1000);
    q.unwrap()
}

/// One tick of the motion integrator for one entity: gravity pulls the
/// vertical speed down (clamped at the fall-speed cap), then the position
/// advances by the new velocity scaled by the frame time.
pub fn movement(velocity: &mut Velocity, position: &mut WorldVec, time_ms: i64)
    requires
        0 <= time_ms <= MAX_TICK_MS,
        old(velocity).in_range(),
        old(position).in_range(),
    ensures
        final(velocity).0.x == old(velocity).0.x,
        final(velocity).0.y == spec_limit(
            old(velocity).0.y - GRAVITY_PER_MS * time_ms,
            MAX_FALL_SPEED as int,
        ),
        final(velocity).0.z == old(velocity).0.z,
        final(velocity).in_range(),
        final(position).x == old(position).x + spec_travel(
            final(velocity).0.x as int,
            time_ms as int,
        ),
        final(position).y == old(position).y + spec_travel(
            final(velocity).0.y as int,
            time_ms as int,
        ),
        final(position).z == old(position).z + spec_travel(
            final(velocity).0.z as int,
            time_ms as int,
        ),
{
    velocity.apply_gravity(time_ms);
    let dx = travel(velocity.0.x, time_ms);
    let dy = travel(velocity.0.y, time_ms);
    let dz = travel(velocity.0.z, time_ms);
    position.x = position.x + dx;
    position.y = position.y + dy;
    position.z = position.z + dz;
}

/// The facing after a horizontal patrol step that reached `amplitude` away
/// from the anchor: past the half-width the patrol turns back toward the
/// anchor; within it the facing is kept.
pub open spec fn spec_patrol_turn(d: Direction, amplitude: int) -> Direction {
    if amplitude >= PATROL_AMPLITUDE || -amplitude >= PATROL_AMPLITUDE {
        if amplitude > 0 {
            Direction::Left
        } else {
            Direction::Right
        }
    } else {
        d
    }
}

/// One tick of the horizontally patrolling enemy: it walks its facing
/// direction at the patrol speed and turns around once it is a patrol
/// half-width away from its anchor position.
pub fn jeremy_movement(
    initial_position: &WorldVec,
    position: &mut WorldVec,
    direction: &mut Direction,
    time_ms: i64,
)
    requires
        0 <= time_ms <= MAX_TICK_MS,
        initial_position.in_range(),
        old(position).in_range(),
    ensures
        final(position).x == old(position).x + spec_travel(
            PATROL_SPEED * spec_direction_sign(*old(direction)),
            time_ms as int,
        ),
        final(position).y == old(position).y,
        final(position).z == old(position).z,
        *final(direction) == spec_patrol_turn(
            *old(direction),
            final(position).x - initial_position.x,
        ),
{
    let dx = travel(PATROL_SPEED * direction.sign(), time_ms);
    position.x = position.x + dx;
    let amplitude: i64 = position.x - initial_position.x;
    if amplitude >= PATROL_AMPLITUDE || -amplitude >= PATROL_AMPLITUDE {
        *direction = if amplitude > 0 {
            Direction::Left
        } else {
            Direction::Right
        };
    }
}

/// The facing after a vertical patrol step that reached `amplitude` above the
/// anchor: at the top of the climb it dives, at or below the anchor it climbs
/// again.
pub open spec fn spec_climb_turn(d: Direction, amplitude: int) -> Direction {
    if amplitude <= 0 {
        Direction::Up
    } else if amplitude >= CLIMB_AMPLITUDE {
        Direction::Down
    } else {
        d
    }
}

/// The vertical patrol speed for a climbing or diving enemy: it creeps up and
/// rushes down.
pub open spec fn spec_climb_speed(d: Direction) -> int {
    if d is Up {
        CLIMB_SPEED as int
    } else {
        -DIVE_SPEED as int
    }
}

/// One tick of the vertically patrolling enemy: it creeps upward, dives back
/// down from a patrol height above its anchor, and starts over at the anchor.
/// It only ever moves up or down.
pub fn blocky_movement(
    initial_position: &WorldVec,
    position: &mut WorldVec,
    direction: &mut Direction,
    time_ms: i64,
)
    requires
        0 <= time_ms <= MAX_TICK_MS,
        initial_position.in_range(),
        old(position).in_range(),
        *old(direction) is Up || *old(direction) is Down,
    ensures
        final(position).y == old(position).y + spec_travel(
            spec_climb_speed(*old(direction)),
            time_ms as int,
        ),
        final(position).x == old(position).x,
        final(position).z == old(position).z,
        *final(direction) == spec_climb_turn(
            *old(direction),
            final(position).y - initial_position.y,
        ),
{
    let speed: i64 = match *direction {
        Direction::Up => CLIMB_SPEED,
        _ => -DIVE_SPEED,
    };
    let dy = travel(speed, time_ms);
    position.y = position.y + dy;
    let amplitude: i64 = position.y - initial_position.y;
    if amplitude >= CLIMB_AMPLITUDE {
        *direction = Direction::Down;
    }
    if amplitude <= 0 {
        *direction = Direction::Up;
    }
}

/// The camera position after one tick of following the player: the player is
/// kept within three tenths of the window width from the camera's center, and
/// the camera does not move while the player stays inside that band.
pub open spec fn spec_camera_follow(camera_x: int, player_x: int, window_width: int) -> int {
    let horizontal_limit = window_width * 3 / 10;
    if player_x < camera_x - horizontal_limit {
        player_x + horizontal_limit
    } else if player_x > camera_x + horizontal_limit {
        player_x - horizontal_limit
    } else {
        camera_x
    }
}

/// One tick of camera movement, as `spec_camera_follow` describes.
pub fn camera_movement(window_width: i64, player_x: i64, camera_x: &mut i64)
    requires
        0 <= window_width <= COORD_LIMIT,
        -COORD_LIMIT <= player_x <= COORD_LIMIT,
        -COORD_LIMIT <= *old(camera_x) <= COORD_LIMIT,
    ensures
        *final(camera_x) == spec_camera_follow(
            *old(camera_x) as int,
            player_x as int,
            window_width as int,
        ),
{
    let horizontal_limit: i64 = window_width * 3 / 10;
    proof {
        lemma_fundamental_div_mod(window_width as int * 3, 10);
    }
    let left_limit: i64 = *camera_x - horizontal_limit;
    let right_limit: i64 = *camera_x + horizontal_limit;
    if player_x < left_limit {
        *camera_x = player_x + horizontal_limit;
    } else if player_x > right_limit {
        *camera_x = player_x - horizontal_limit;
    }
}

} // verus!
