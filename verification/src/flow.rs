//! The game-flow controller: how collisions reshape the player's motion, and
//! the per-tick terminal conditions of a run. Within a tick, motion
//! integration runs first, then collision resolution, then these checks, so a
//! resolved, non-penetrating position is what is tested; the recorder and
//! replayer run once the positions are final.

use vstd::prelude::*;

use std::collections::VecDeque;

use crate::geom::COORD_LIMIT;
use crate::geom::CollisionType;
use crate::geom::Hitbox;
use crate::geom::RESOLVE_LIMIT;
use crate::geom::WorldVec;
use crate::geom::spec_collide;
use crate::player::Character;
use crate::positions::Positions;
use crate::positions::RepeatTimer;
use crate::positions::SAMPLE_INTERVAL_MS;
use crate::tile::TILE_SIZE;
use crate::velocity::Velocity;

verus! {

/// One draw layer, in thousandths of a z unit: the offset taken off a
/// recorded path when it is stored for the rival, a rendering artifact of the
/// recording, not gameplay.
pub const LAYER_STEP: i64 = 1_000;

/// Ground collision resolution accepts at most this many colliders per call,
/// so that the resolved position stays within `RESOLVE_LIMIT`.
pub const MAX_COLLIDERS: usize = 100_000_000;

/// How a run can end. All four conditions are checked every tick; when
/// several trigger in the same tick, the priority is the order given here:
/// a win outranks a hazard death, which outranks falling out of bounds, which
/// outranks the rival finishing its path.
#[derive(Clone, Copy, Debug, PartialEq, Eq, Structural)]
pub enum Outcome {
    /// The player touched the win tile.
    Win,
    /// The player touched an enemy other than from above.
    KilledByEnemy,
    /// The player dropped below the camera's visible lower edge.
    FellOutOfBounds,
    /// The rival's replayed path ran out: the rival finished first.
    RivalFinished,
}

/// The message shown when a run ends.
#[derive(Clone, Debug)]
pub struct GameOverEvent {
    pub main_message: String,
    pub secondary_message: Option<String>,
}

impl Default for GameOverEvent {
    fn default() -> (r: Self)
        ensures
            r.main_message@ == "Game\nOver"@,
            r.secondary_message is None,
    {
        GameOverEvent { main_message: "Game\nOver".to_owned(), secondary_message: None }
    }
}

/// The message each outcome shows on the run-ended screen.
pub fn outcome_event(outcome: Outcome) -> (e: GameOverEvent)
    ensures
        outcome is Win ==> e.main_message@ == "You\nwin"@ && e.secondary_message is None,
        !(outcome is Win) ==> e.main_message@ == "Game\nOver"@,
        outcome is KilledByEnemy ==> (e.secondary_message matches Some(m) && m@
            == "Killed by an enemy"@),
        outcome is FellOutOfBounds ==> (e.secondary_message matches Some(m) && m@
            == "Fell from a great height"@),
        outcome is RivalFinished ==> (e.secondary_message matches Some(m) && m@
            == "Your rival was faster"@),
{
    match outcome {
        Outcome::Win => GameOverEvent { main_message: "You\nwin".to_owned(), secondary_message: None },
        Outcome::KilledByEnemy => GameOverEvent {
            main_message: "Game\nOver".to_owned(),
            secondary_message: Some("Killed by an enemy".to_owned()),
        },
        Outcome::FellOutOfBounds => GameOverEvent {
            main_message: "Game\nOver".to_owned(),
            secondary_message: Some("Fell from a great height".to_owned()),
        },
        Outcome::RivalFinished => GameOverEvent {
            main_message: "Game\nOver".to_owned(),
            secondary_message: Some("Your rival was faster".to_owned()),
        },
    }
}

/// The terminal condition that governs a tick in which several triggered at
/// once: win first, then hazard death, then the fall, then the rival.
pub open spec fn spec_first_outcome(
    won: bool,
    killed: bool,
    fell: bool,
    rival_finished: bool,
) -> Option<Outcome> {
    if won {
        Some(Outcome::Win)
    } else if killed {
        Some(Outcome::KilledByEnemy)
    } else if fell {
        Some(Outcome::FellOutOfBounds)
    } else if rival_finished {
        Some(Outcome::RivalFinished)
    } else {
        None
    }
}

/// Picks the outcome that governs this tick, as `spec_first_outcome`
/// describes.
pub fn first_outcome(won: bool, killed: bool, fell: bool, rival_finished: bool) -> (r: Option<
    Outcome,
>)
    ensures
        r == spec_first_outcome(won, killed, fell, rival_finished),
{
    if won {
        Some(Outcome::Win)
    } else if killed {
        Some(Outcome::KilledByEnemy)
    } else if fell {
        Some(Outcome::FellOutOfBounds)
    } else if rival_finished {
        Some(Outcome::RivalFinished)
    } else {
        None
    }
}

/// How one ground collider reshapes the player's state: a hit from above
/// pushes the player out upward and, if the player was falling, zeroes the
/// fall and grounds the player (enabling the next jump); a hit from below
/// pushes the player down and stops upward motion; side hits push the player
/// away and stop motion into the wall.
pub open spec fn spec_ground_collision_step(
    grounded: bool,
    player_hitbox: Hitbox,
    pos: WorldVec,
    vel: Velocity,
    ground: (Hitbox, WorldVec),
) -> (bool, WorldVec, Velocity) {
    match spec_collide(player_hitbox, pos, ground.0, ground.1) {
        None => (grounded, pos, vel),
        Some(c) => match c.collision_type {
            CollisionType::Bottom => {
                let pos2 = WorldVec { x: pos.x, y: (pos.y + c.overlap) as i64, z: pos.z };
                if vel.0.y < 0 {
                    (true, pos2, Velocity(WorldVec { x: vel.0.x, y: 0, z: vel.0.z }))
                } else {
                    (grounded, pos2, vel)
                }
            },
            CollisionType::Top => (
                grounded,
                WorldVec { x: pos.x, y: (pos.y - c.overlap) as i64, z: pos.z },
                Velocity(
                    WorldVec {
                        x: vel.0.x,
                        y: if vel.0.y > 0 {
                            0
                        } else {
                            vel.0.y
                        },
                        z: vel.0.z,
                    },
                ),
            ),
            CollisionType::Left => (
                grounded,
                WorldVec { x: (pos.x + c.overlap) as i64, y: pos.y, z: pos.z },
                Velocity(
                    WorldVec {
                        x: if vel.0.x < 0 {
                            0
                        } else {
                            vel.0.x
                        },
                        y: vel.0.y,
                        z: vel.0.z,
                    },
                ),
            ),
            CollisionType::Right => (
                grounded,
                WorldVec { x: (pos.x - c.overlap) as i64, y: pos.y, z: pos.z },
                Velocity(
                    WorldVec {
                        x: if vel.0.x > 0 {
                            0
                        } else {
                            vel.0.x
                        },
                        y: vel.0.y,
                        z: vel.0.z,
                    },
                ),
            ),
        },
    }
}

/// The player's state after being resolved against a row of ground colliders,
/// one at a time, in order.
pub open spec fn spec_ground_collisions(
    grounded: bool,
    player_hitbox: Hitbox,
    pos: WorldVec,
    vel: Velocity,
    grounds: Seq<(Hitbox, WorldVec)>,
) -> (bool, WorldVec, Velocity)
    decreases grounds.len(),
{
    if grounds.len() == 0 {
        (grounded, pos, vel)
    } else {
        let s = spec_ground_collision_step(grounded, player_hitbox, pos, vel, grounds[0]);
        spec_ground_collisions(s.0, player_hitbox, s.1, s.2, grounds.drop_first())
    }
}

proof fn lemma_ground_collisions_snoc(
    grounded: bool,
    player_hitbox: Hitbox,
    pos: WorldVec,
    vel: Velocity,
    grounds: Seq<(Hitbox, WorldVec)>,
    g: (Hitbox, WorldVec),
)
    ensures
        spec_ground_collisions(grounded, player_hitbox, pos, vel, grounds.push(g)) == ({
            let s = spec_ground_collisions(grounded, player_hitbox, pos, vel, grounds);
            spec_ground_collision_step(s.0, player_hitbox, s.1, s.2, g)
        }),
    decreases grounds.len(),
{
    if grounds.len() == 0 {
        assert(grounds.push(g)[0] == g);
        assert(grounds.push(g).drop_first() =~= Seq::<(Hitbox, WorldVec)>::empty());
        let s = spec_ground_collision_step(grounded, player_hitbox, pos, vel, g);
        assert(spec_ground_collisions(s.0, player_hitbox, s.1, s.2, Seq::<(Hitbox, WorldVec)>::empty())
            == (s.0, s.1, s.2));
    } else {
        assert(grounds.push(g)[0] == grounds[0]);
        assert(grounds.push(g).drop_first() =~= grounds.drop_first().push(g));
        let s = spec_ground_collision_step(grounded, player_hitbox, pos, vel, grounds[0]);
        lemma_ground_collisions_snoc(s.0, player_hitbox, s.1, s.2, grounds.drop_first(), g);
    }
}

/// Resolves the player against one ground collider, as
/// `spec_ground_collision_step` describes.
pub fn resolve_ground_collision(
    player: &mut Character,
    player_hitbox: &Hitbox,
    position: &mut WorldVec,
    velocity: &mut Velocity,
    ground_hitbox: &Hitbox,
    ground_position: &WorldVec,
)
    requires
        player_hitbox.wf(),
        ground_hitbox.wf(),
        old(position).in_resolve_range(),
        ground_position.in_resolve_range(),
    ensures
        (final(player).grounded, *final(position), *final(velocity)) == spec_ground_collision_step(
            old(player).grounded,
            *player_hitbox,
            *old(position),
            *old(velocity),
            (*ground_hitbox, *ground_position),
        ),
{
    match player_hitbox.collide(position, ground_hitbox, ground_position) {
        None => {},
        Some(collision) => {
            match collision.collision_type {
                CollisionType::Bottom => {
                    position.y = position.y + collision.overlap;
                    if velocity.0.y < 0 {
                        velocity.0.y = 0;
                        player.hit_ground();
                    }
                },
                CollisionType::Top => {
                    position.y = position.y - collision.overlap;
                    velocity.stop_top();
                },
                CollisionType::Left => {
                    position.x = position.x + collision.overlap;
                    velocity.stop_left();
                },
                CollisionType::Right => {
                    position.x = position.x - collision.overlap;
                    velocity.stop_right();
                },
            }
        },
    }
}

/// Resolves the player against every ground collider in turn, in order, as
/// `spec_ground_collisions` describes. Landing on top of a collider while
/// falling zeroes the fall and grounds the player; ceilings and walls stop
/// the motion into them.
pub fn player_ground_collision(
    player: &mut Character,
    player_hitbox: &Hitbox,
    position: &mut WorldVec,
    velocity: &mut Velocity,
    grounds: &Vec<(Hitbox, WorldVec)>,
)
    requires
        player_hitbox.wf(),
        player_hitbox.size.x <= TILE_SIZE,
        player_hitbox.size.y <= TILE_SIZE,
        old(position).in_range(),
        grounds@.len() <= MAX_COLLIDERS,
        forall|k: int|
            0 <= k < grounds@.len() ==> (#[trigger] grounds@[k]).0.wf() && grounds@[k].0.size.x
                <= TILE_SIZE && grounds@[k].0.size.y <= TILE_SIZE
                && grounds@[k].1.in_resolve_range(),
    ensures
        (final(player).grounded, *final(position), *final(velocity)) == spec_ground_collisions(
            old(player).grounded,
            *player_hitbox,
            *old(position),
            *old(velocity),
            grounds@,
        ),
{
    let mut i: usize = 0;
    while i < grounds.len()
        invariant
            player_hitbox.wf(),
            player_hitbox.size.x <= TILE_SIZE,
            player_hitbox.size.y <= TILE_SIZE,
            grounds@.len() <= MAX_COLLIDERS,
            forall|k: int|
                0 <= k < grounds@.len() ==> (#[trigger] grounds@[k]).0.wf() && grounds@[k].0.size.x
                    <= TILE_SIZE && grounds@[k].0.size.y <= TILE_SIZE
                    && grounds@[k].1.in_resolve_range(),
            i <= grounds@.len(),
            old(position).in_range(),
            (player.grounded, *position, *velocity) == spec_ground_collisions(
                old(player).grounded,
                *player_hitbox,
                *old(position),
                *old(velocity),
                grounds@.take(i as int),
            ),
            -COORD_LIMIT - TILE_SIZE * i <= position.x <= COORD_LIMIT + TILE_SIZE * i,
            -COORD_LIMIT - TILE_SIZE * i <= position.y <= COORD_LIMIT + TILE_SIZE * i,
            position.z == old(position).z,
        decreases grounds@.len() - i,
    {
        let ground = &grounds[i];
        let ghost pre_pos = *position;
        resolve_ground_collision(player, player_hitbox, position, velocity, &ground.0, &ground.1);
        proof {
            lemma_ground_collisions_snoc(
                old(player).grounded,
                *player_hitbox,
                *old(position),
                *old(velocity),
                grounds@.take(i as int),
                grounds@[i as int],
            );
            assert(grounds@.take(i as int).push(grounds@[i as int]) =~= grounds@.take(i + 1));
            let gi = grounds@[i as int];
            match spec_collide(*player_hitbox, pre_pos, gi.0, gi.1) {
                None => {},
                Some(c) => {
                    assert(0 <= c.overlap <= TILE_SIZE);
                },
            }
        }
        i += 1;
    }
    proof {
        assert(grounds@.take(grounds@.len() as int) =~= grounds@);
    }
}

/// The action taken after testing the player against one enemy.
#[derive(Clone, Copy, Debug, PartialEq, Eq, Structural)]
pub enum EnemyAction {
    /// No contact: nothing happens.
    Ignore,
    /// The player landed on the enemy from above: the caller despawns the
    /// enemy, and the player's vertical motion has been reversed into an
    /// upward bounce.
    Bounce,
    /// Contact from any other side is lethal: the caller ends the run with
    /// `Outcome::KilledByEnemy`.
    Lethal,
}

/// Tests the player's hazard hitbox against one enemy and applies the bounce:
/// contact from above (a `Bottom` collision) despawns the enemy and reverses
/// the player's vertical velocity; contact from any other direction is
/// lethal; no overlap leaves everything unchanged.
pub fn player_enemy_collision(
    player_hitbox: &Hitbox,
    player_position: &WorldVec,
    player_velocity: &mut Velocity,
    enemy_hitbox: &Hitbox,
    enemy_position: &WorldVec,
) -> (r: EnemyAction)
    requires
        player_hitbox.wf(),
        enemy_hitbox.wf(),
        player_position.in_resolve_range(),
        enemy_position.in_resolve_range(),
        old(player_velocity).in_range(),
    ensures
        final(player_velocity).0.x == old(player_velocity).0.x,
        final(player_velocity).0.z == old(player_velocity).0.z,
        final(player_velocity).in_range(),
        match spec_collide(*player_hitbox, *player_position, *enemy_hitbox, *enemy_position) {
            None => r is Ignore && final(player_velocity).0.y == old(player_velocity).0.y,
            Some(c) => if c.collision_type is Bottom {
                r is Bounce && final(player_velocity).0.y == -old(player_velocity).0.y
            } else {
                r is Lethal && final(player_velocity).0.y == old(player_velocity).0.y
            },
        },
{
    match player_hitbox.collide(player_position, enemy_hitbox, enemy_position) {
        None => EnemyAction::Ignore,
        Some(collision) => match collision.collision_type {
            CollisionType::Bottom => {
                player_velocity.0.y = -player_velocity.0.y;
                EnemyAction::Bounce
            },
            _ => EnemyAction::Lethal,
        },
    }
}

/// Whether the player's ground hitbox touches the win tile's hitbox this
/// tick.
pub fn check_win(
    player_hitbox: &Hitbox,
    player_position: &WorldVec,
    win_hitbox: &Hitbox,
    win_position: &WorldVec,
) -> (won: bool)
    requires
        player_hitbox.wf(),
        win_hitbox.wf(),
        player_position.in_resolve_range(),
        win_position.in_resolve_range(),
    ensures
        won == (spec_collide(*player_hitbox, *player_position, *win_hitbox, *win_position)
            is Some),
{
    match player_hitbox.collide(player_position, win_hitbox, win_position) {
        Some(_) => true,
        None => false,
    }
}

/// Whether the player has fallen below the camera's visible lower edge.
pub fn out_of_bounds(player_y: i64, camera_y: i64, window_height: i64) -> (fell: bool)
    requires
        0 <= window_height <= COORD_LIMIT,
        -RESOLVE_LIMIT <= camera_y <= RESOLVE_LIMIT,
    ensures
        fell == (player_y < camera_y - window_height / 2),
{
    player_y < camera_y - window_height / 2
}

/// The recorded run repackaged as a rival path when the player wins: the same
/// positions in order, each one draw layer lower (a rendering artifact of the
/// recording), behind a fresh sampling timer.
pub fn stolen_path(recorded: &Positions) -> (r: Positions)
    requires
        recorded.wf(),
        forall|i: int|
            0 <= i < recorded.values@.len() ==> (#[trigger] recorded.values@[i]).z >= -COORD_LIMIT
                + LAYER_STEP,
    ensures
        r.values@.len() == recorded.values@.len(),
        forall|i: int|
            0 <= i < r.values@.len() ==> #[trigger] r.values@[i] == (WorldVec {
                x: recorded.values@[i].x,
                y: recorded.values@[i].y,
                z: (recorded.values@[i].z - LAYER_STEP) as i64,
            }),
        r.timer == (RepeatTimer { interval_ms: SAMPLE_INTERVAL_MS, elapsed_ms: 0 }),
        r.wf(),
{
    let mut values: VecDeque<WorldVec> = VecDeque::new();
    let mut i: usize = 0;
    while i < recorded.values.len()
        invariant
            recorded.wf(),
            forall|k: int|
                0 <= k < recorded.values@.len() ==> (#[trigger] recorded.values@[k]).z
                    >= -COORD_LIMIT + LAYER_STEP,
            i <= recorded.values@.len(),
            values@.len() == i,
            forall|k: int|
                0 <= k < i ==> #[trigger] values@[k] == (WorldVec {
                    x: recorded.values@[k].x,
                    y: recorded.values@[k].y,
                    z: (recorded.values@[k].z - LAYER_STEP) as i64,
                }),
        decreases recorded.values@.len() - i,
    {
        let p: WorldVec = recorded.values[i];
        values.push_back(WorldVec { x: p.x, y: p.y, z: p.z - LAYER_STEP });
        i += 1;
    }
    Positions {
        values,
        timer: RepeatTimer { interval_ms: SAMPLE_INTERVAL_MS, elapsed_ms: 0 },
    }
}

} // verus!
