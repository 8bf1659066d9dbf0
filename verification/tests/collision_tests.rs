use chaz::{
    Character, Collision, CollisionType, EnemyAction, Hitbox, Size2, Velocity, WorldVec,
    player_enemy_collision, player_ground_collision, resolve_ground_collision,
};

fn boxed(width: i64, height: i64) -> Hitbox {
    Hitbox {
        relative_position: WorldVec { x: 0, y: 0, z: 0 },
        size: Size2 { x: width, y: height },
    }
}

fn at(x: i64, y: i64) -> WorldVec {
    WorldVec { x, y, z: 0 }
}

#[test]
fn y_overlap_smaller_resolves_vertically() {
    // Player box centered at (0, 10) with half-size (9, 9) against a ground
    // box centered at (0, 0) with half-size (9, 9): the boxes interpenetrate
    // 8 on the y axis and 18 on the x axis, so the collision resolves on the
    // y axis, as the bottom of the player, by exactly 8.
    let player = boxed(18_000, 18_000);
    let ground = boxed(18_000, 18_000);
    let r = player.collide(&at(0, 10_000), &ground, &at(0, 0)).unwrap();
    assert_eq!(
        r,
        Collision { collision_type: CollisionType::Bottom, overlap: 8_000 }
    );
}

#[test]
fn resolving_by_the_reported_overlap_separates_the_boxes() {
    let player = boxed(18_000, 18_000);
    let ground = boxed(18_000, 18_000);
    let hit = player.collide(&at(0, 10_000), &ground, &at(0, 0)).unwrap();
    assert_eq!(hit.collision_type, CollisionType::Bottom);
    // Pushed up by the overlap, the boxes only touch: no further collision.
    let resolved = at(0, 10_000 + hit.overlap);
    assert!(player.collide(&resolved, &ground, &at(0, 0)).is_none());
}

#[test]
fn no_overlap_returns_none() {
    let a = boxed(18_000, 18_000);
    let b = boxed(18_000, 18_000);
    assert!(a.collide(&at(0, 0), &b, &at(40_000, 0)).is_none());
    assert!(a.collide(&at(0, 40_000), &b, &at(0, 0)).is_none());
    // Exactly touching edges do not collide.
    assert!(a.collide(&at(18_000, 0), &b, &at(0, 0)).is_none());
}

#[test]
fn x_overlap_smaller_resolves_horizontally() {
    let a = boxed(18_000, 18_000);
    let b = boxed(18_000, 18_000);
    // Centers offset 16 on x and 2 on y: x overlap 2, y overlap 16.
    let r = a.collide(&at(16_000, 2_000), &b, &at(0, 0)).unwrap();
    assert_eq!(r, Collision { collision_type: CollisionType::Left, overlap: 2_000 });
    let r = a.collide(&at(-16_000, 2_000), &b, &at(0, 0)).unwrap();
    assert_eq!(r, Collision { collision_type: CollisionType::Right, overlap: 2_000 });
}

#[test]
fn collision_from_below_is_top_of_player() {
    let a = boxed(18_000, 18_000);
    let b = boxed(18_000, 18_000);
    let r = a.collide(&at(0, -10_000), &b, &at(0, 0)).unwrap();
    assert_eq!(r, Collision { collision_type: CollisionType::Top, overlap: 8_000 });
}

#[test]
fn relative_position_offsets_the_box() {
    let offset_box = Hitbox {
        relative_position: WorldVec { x: 0, y: 10_000, z: 0 },
        size: Size2 { x: 18_000, y: 18_000 },
    };
    let plain = boxed(18_000, 18_000);
    // The owner stands at the origin but its box is centered at (0, 10).
    let r = offset_box.collide(&at(0, 0), &plain, &at(0, 0)).unwrap();
    assert_eq!(r.collision_type, CollisionType::Bottom);
    assert_eq!(r.overlap, 8_000);
}

#[test]
fn landing_grounds_the_player_and_stops_the_fall() {
    let player_hitbox = boxed(18_000, 18_000);
    let ground_hitbox = boxed(18_000, 18_000);
    let mut player = Character::default();
    let mut position = at(0, 10_000);
    let mut velocity = Velocity(WorldVec { x: 3_000, y: -50_000, z: 0 });
    resolve_ground_collision(
        &mut player,
        &player_hitbox,
        &mut position,
        &mut velocity,
        &ground_hitbox,
        &at(0, 0),
    );
    assert!(player.grounded);
    assert_eq!(position.y, 18_000);
    assert_eq!(velocity.0.y, 0);
    assert_eq!(velocity.0.x, 3_000);
}

#[test]
fn ceiling_hit_pushes_down_and_stops_the_rise() {
    let player_hitbox = boxed(18_000, 18_000);
    let ground_hitbox = boxed(18_000, 18_000);
    let mut player = Character::default();
    let mut position = at(0, -10_000);
    let mut velocity = Velocity(WorldVec { x: 0, y: 40_000, z: 0 });
    resolve_ground_collision(
        &mut player,
        &player_hitbox,
        &mut position,
        &mut velocity,
        &ground_hitbox,
        &at(0, 0),
    );
    assert!(!player.grounded);
    assert_eq!(position.y, -18_000);
    assert_eq!(velocity.0.y, 0);
}

#[test]
fn wall_hit_pushes_out_and_stops_motion_into_it() {
    let player_hitbox = boxed(18_000, 18_000);
    let wall_hitbox = boxed(18_000, 18_000);
    let mut player = Character::default();
    let mut position = at(16_000, 2_000);
    let mut velocity = Velocity(WorldVec { x: -20_000, y: 5_000, z: 0 });
    resolve_ground_collision(
        &mut player,
        &player_hitbox,
        &mut position,
        &mut velocity,
        &wall_hitbox,
        &at(0, 0),
    );
    assert_eq!(position.x, 18_000);
    assert_eq!(velocity.0.x, 0);
    assert_eq!(velocity.0.y, 5_000);
}

#[test]
fn resolves_against_every_collider_in_order() {
    let player_hitbox = boxed(18_000, 18_000);
    let grounds = vec![
        (boxed(18_000, 18_000), at(0, 0)),
        (boxed(18_000, 18_000), at(100_000, 0)),
    ];
    let mut player = Character::default();
    let mut position = at(0, 10_000);
    let mut velocity = Velocity(WorldVec { x: 0, y: -1_000, z: 0 });
    player_ground_collision(
        &mut player,
        &player_hitbox,
        &mut position,
        &mut velocity,
        &grounds,
    );
    assert!(player.grounded);
    assert_eq!(position.y, 18_000);
    assert_eq!(velocity.0.y, 0);
}

#[test]
fn bouncing_on_an_enemy_reverses_the_fall() {
    let player_hitbox = boxed(18_000, 18_000);
    let enemy_hitbox = boxed(18_000, 18_000);
    let mut velocity = Velocity(WorldVec { x: 0, y: -60_000, z: 0 });
    let action = player_enemy_collision(
        &player_hitbox,
        &at(0, 10_000),
        &mut velocity,
        &enemy_hitbox,
        &at(0, 0),
    );
    assert_eq!(action, EnemyAction::Bounce);
    assert_eq!(velocity.0.y, 60_000);
}

#[test]
fn side_contact_with_an_enemy_is_lethal() {
    let player_hitbox = boxed(18_000, 18_000);
    let enemy_hitbox = boxed(18_000, 18_000);
    let mut velocity = Velocity(WorldVec { x: 0, y: 0, z: 0 });
    let action = player_enemy_collision(
        &player_hitbox,
        &at(16_000, 2_000),
        &mut velocity,
        &enemy_hitbox,
        &at(0, 0),
    );
    assert_eq!(action, EnemyAction::Lethal);
    assert_eq!(velocity.0.y, 0);
}

#[test]
fn no_enemy_contact_is_ignored() {
    let player_hitbox = boxed(18_000, 18_000);
    let enemy_hitbox = boxed(18_000, 18_000);
    let mut velocity = Velocity(WorldVec { x: 0, y: -5_000, z: 0 });
    let action = player_enemy_collision(
        &player_hitbox,
        &at(0, 100_000),
        &mut velocity,
        &enemy_hitbox,
        &at(0, 0),
    );
    assert_eq!(action, EnemyAction::Ignore);
    assert_eq!(velocity.0.y, -5_000);
}
