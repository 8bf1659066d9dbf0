use chaz::{
    Character, Direction, Velocity, WorldVec, blocky_movement, camera_movement, input,
    jeremy_movement, movement, JUMP_SPEED, MAX_FALL_SPEED, MAX_RUN_SPEED, RUN_ACCEL,
};

fn vel(x: i64, y: i64) -> Velocity {
    Velocity(WorldVec { x, y, z: 0 })
}

#[test]
fn gravity_pulls_down_and_clamps_at_the_fall_cap() {
    // Gravity of 500 units per second squared: a 100 ms frame costs 50 units
    // per second of vertical speed.
    let mut v = vel(0, 0);
    v.apply_gravity(100);
    assert_eq!(v.0.y, -50_000);
    // A long fall is capped at the maximal fall speed.
    let mut v = vel(0, -290_000);
    v.apply_gravity(100);
    assert_eq!(v.0.y, -MAX_FALL_SPEED);
    // The cap also limits upward speed: a fresh jump is slowed to the cap on
    // the next gravity application.
    let mut v = vel(0, JUMP_SPEED);
    v.apply_gravity(1);
    assert_eq!(v.0.y, MAX_FALL_SPEED);
}

#[test]
fn pressing_a_direction_accelerates_toward_the_run_cap() {
    let mut v = vel(0, 0);
    v.update(Some(Direction::Right));
    assert_eq!(v.0.x, RUN_ACCEL);
    let mut v = vel(MAX_RUN_SPEED - 4_000, 0);
    v.update(Some(Direction::Right));
    assert_eq!(v.0.x, MAX_RUN_SPEED);
    let mut v = vel(0, 0);
    v.update(Some(Direction::Left));
    assert_eq!(v.0.x, -RUN_ACCEL);
}

#[test]
fn releasing_input_decays_speed_with_inertia() {
    let mut v = vel(100_000, 0);
    v.update(None);
    assert_eq!(v.0.x, 90_000);
    let mut v = vel(-100_000, 0);
    v.update(None);
    assert_eq!(v.0.x, -90_000);
    // Below the acceleration step the entity stops outright.
    let mut v = vel(9_999, 0);
    v.update(None);
    assert_eq!(v.0.x, 0);
    let mut v = vel(-9_999, 0);
    v.update(None);
    assert_eq!(v.0.x, 0);
}

#[test]
fn collision_stops_zero_only_motion_into_the_obstacle() {
    let mut v = vel(-5_000, 0);
    v.stop_left();
    assert_eq!(v.0.x, 0);
    let mut v = vel(5_000, 0);
    v.stop_left();
    assert_eq!(v.0.x, 5_000);
    let mut v = vel(5_000, 0);
    v.stop_right();
    assert_eq!(v.0.x, 0);
    let mut v = vel(0, 7_000);
    v.stop_top();
    assert_eq!(v.0.y, 0);
    let mut v = vel(0, -7_000);
    v.stop_top();
    assert_eq!(v.0.y, -7_000);
}

#[test]
fn jump_is_honored_only_while_grounded() {
    let mut player = Character { grounded: true };
    let mut velocity = vel(0, 0);
    let mut direction = Direction::Right;
    input(&mut player, &mut velocity, &mut direction, false, false, true);
    assert!(!player.grounded);
    assert_eq!(velocity.0.y, JUMP_SPEED);

    // Airborne, a jump press does nothing.
    let mut velocity = vel(0, -1_000);
    input(&mut player, &mut velocity, &mut direction, false, false, true);
    assert!(!player.grounded);
    assert_eq!(velocity.0.y, -1_000);
}

#[test]
fn input_turns_the_facing_and_drives_the_speed() {
    let mut player = Character::default();
    let mut velocity = vel(0, 0);
    let mut direction = Direction::Right;
    input(&mut player, &mut velocity, &mut direction, true, false, false);
    assert_eq!(direction, Direction::Left);
    assert_eq!(velocity.0.x, -RUN_ACCEL);
    // Both directions pressed cancel out: the speed decays and the facing is
    // kept.
    input(&mut player, &mut velocity, &mut direction, true, true, false);
    assert_eq!(direction, Direction::Left);
    assert_eq!(velocity.0.x, -RUN_ACCEL * 9 / 10);
}

#[test]
fn movement_integrates_velocity_after_gravity() {
    let mut velocity = vel(10_000, 0);
    let mut position = WorldVec { x: 1_000, y: 2_000, z: 500 };
    movement(&mut velocity, &mut position, 100);
    // Gravity first: vy becomes -50; then x advances 10 * 0.1 = 1 unit and y
    // falls 50 * 0.1 = 5 units.
    assert_eq!(velocity.0.y, -50_000);
    assert_eq!(position.x, 2_000);
    assert_eq!(position.y, 2_000 - 5_000);
    assert_eq!(position.z, 500);
}

#[test]
fn horizontal_patrol_walks_and_turns_at_the_amplitude() {
    let anchor = WorldVec { x: 0, y: 0, z: 1_000 };
    let mut position = anchor;
    let mut direction = Direction::Right;
    // 20 units per second for 0.5 s: 10 units east, still inside the 20-unit
    // amplitude.
    jeremy_movement(&anchor, &mut position, &mut direction, 500);
    assert_eq!(position.x, 10_000);
    assert_eq!(direction, Direction::Right);
    // Another 0.5 s reaches the amplitude and turns the patrol around.
    jeremy_movement(&anchor, &mut position, &mut direction, 500);
    assert_eq!(position.x, 20_000);
    assert_eq!(direction, Direction::Left);
}

#[test]
fn vertical_patrol_creeps_up_and_dives_down() {
    let anchor = WorldVec { x: 0, y: 0, z: 1_000 };
    let mut position = anchor;
    let mut direction = Direction::Up;
    // 48 units per second for 2 s reaches the 96-unit top and turns down.
    blocky_movement(&anchor, &mut position, &mut direction, 2_000);
    assert_eq!(position.y, 96_000);
    assert_eq!(direction, Direction::Down);
    // Diving is faster: 120 units per second.
    blocky_movement(&anchor, &mut position, &mut direction, 500);
    assert_eq!(position.y, 36_000);
    assert_eq!(direction, Direction::Down);
    blocky_movement(&anchor, &mut position, &mut direction, 500);
    assert_eq!(position.y, -24_000);
    assert_eq!(direction, Direction::Up);
}

#[test]
fn camera_keeps_the_player_inside_the_band() {
    // A 600-unit window gives a 180-unit band on either side.
    let mut camera_x: i64 = 0;
    camera_movement(600_000, 100_000, &mut camera_x);
    assert_eq!(camera_x, 0);
    camera_movement(600_000, 200_000, &mut camera_x);
    assert_eq!(camera_x, 20_000);
    camera_movement(600_000, -300_000, &mut camera_x);
    assert_eq!(camera_x, -120_000);
}

#[test]
fn direction_follows_the_motion() {
    let mut d = Direction::Left;
    d.update(&WorldVec { x: 5, y: 0, z: 0 });
    assert_eq!(d, Direction::Right);
    d.update(&WorldVec { x: 0, y: 0, z: 0 });
    assert_eq!(d, Direction::Right);
    d.update(&WorldVec { x: -5, y: 0, z: 0 });
    assert_eq!(d, Direction::Left);
    assert_eq!(Direction::from_input(true, false), Some(Direction::Left));
    assert_eq!(Direction::from_input(false, true), Some(Direction::Right));
    assert_eq!(Direction::from_input(true, true), None);
    assert_eq!(Direction::from_input(false, false), None);
}
