//! Ship control: rotation, thrust, the speed ceiling, decay and firing.

use asteroids::bullet::BULLET_VELOCITY;
use asteroids::heading::direction_milli;
use asteroids::player::{clamp_speed, move_player, setup_player, Player, SHIP_MAX_VELOCITY_SQ};
use asteroids::position::Position;
use asteroids::velocity::Velocity;
use asteroids::world::{InputState, ShipEntity, World};

fn input(left: bool, right: bool, thrust: bool, fire: bool) -> InputState {
    InputState { left, right, thrust, fire }
}

fn world_with_ship(vel: Velocity, heading_step: u8) -> World {
    let mut w = World::new();
    w.ship = Some(ShipEntity {
        player: Player { heading_step, score: 0 },
        pos: Position { x: 0, y: 0 },
        vel,
    });
    w
}

fn ship_of(w: &World) -> ShipEntity {
    w.ship.clone().unwrap()
}

/// Heading 0 faces up: its direction is the unit vector (0, 1).
#[test]
fn direction_table_cardinal_points() {
    assert_eq!(direction_milli(0), (0, 1000));
    assert_eq!(direction_milli(18), (-1000, 0));
    assert_eq!(direction_milli(36), (0, -1000));
    assert_eq!(direction_milli(54), (1000, 0));
    assert_eq!(direction_milli(9), (-707, 707));
}

/// Holding rotate-left advances the heading one step counterclockwise.
#[test]
fn rotate_left_steps_heading() {
    let mut w = world_with_ship(Velocity { x: 0, y: 0 }, 0);
    move_player(&mut w, &input(true, false, false, false));
    assert_eq!(ship_of(&w).player.heading_step, 1);
}

/// Holding rotate-right steps clockwise, wrapping below zero.
#[test]
fn rotate_right_wraps_heading() {
    let mut w = world_with_ship(Velocity { x: 0, y: 0 }, 0);
    move_player(&mut w, &input(false, true, false, false));
    assert_eq!(ship_of(&w).player.heading_step, 71);
}

/// Holding both rotations cancels out.
#[test]
fn both_rotations_cancel() {
    let mut w = world_with_ship(Velocity { x: 0, y: 0 }, 5);
    move_player(&mut w, &input(true, true, false, false));
    assert_eq!(ship_of(&w).player.heading_step, 5);
}

/// One tick of thrust from rest, facing up, adds 0.2 world units of
/// upward velocity.
#[test]
fn thrust_accelerates_along_heading() {
    let mut w = world_with_ship(Velocity { x: 0, y: 0 }, 0);
    move_player(&mut w, &input(false, false, true, false));
    assert_eq!(ship_of(&w).vel, Velocity { x: 0, y: 200 });
}

/// Without thrust the velocity decays by 1%, rounded toward zero.
#[test]
fn coasting_decays_velocity() {
    let mut w = world_with_ship(Velocity { x: 1000, y: -1000 }, 0);
    move_player(&mut w, &input(false, false, false, false));
    assert_eq!(ship_of(&w).vel, Velocity { x: 990, y: -990 });
}

/// A velocity over the ceiling is rescaled to (just under) the ceiling.
#[test]
fn clamp_rescales_overspeed() {
    let v = clamp_speed(Velocity { x: 20_000, y: 0 });
    assert_eq!(v, Velocity { x: 9_999, y: 0 });
}

/// The zero vector maps to zero, not a division fault.
#[test]
fn clamp_keeps_zero_vector() {
    let v = clamp_speed(Velocity { x: 0, y: 0 });
    assert_eq!(v, Velocity { x: 0, y: 0 });
}

/// A velocity under the ceiling is untouched.
#[test]
fn clamp_keeps_slow_velocity() {
    let v = clamp_speed(Velocity { x: 6_000, y: -8_000 });
    assert_eq!(v, Velocity { x: 6_000, y: -8_000 });
}

/// Speed ceiling: across a long mixed sequence of thrust and rotation
/// the ship's squared speed never exceeds the squared ceiling.
#[test]
fn speed_never_exceeds_ceiling() {
    let mut w = world_with_ship(Velocity { x: 0, y: 0 }, 0);
    for i in 0..500 {
        let turn = i % 3 == 0;
        move_player(&mut w, &input(turn, false, true, false));
        let v = ship_of(&w).vel;
        assert!(v.x * v.x + v.y * v.y <= SHIP_MAX_VELOCITY_SQ);
    }
    // straight thrust actually drives the ship up to the ceiling
    let mut w = world_with_ship(Velocity { x: 0, y: 0 }, 0);
    for _ in 0..200 {
        move_player(&mut w, &input(false, false, true, false));
        let v = ship_of(&w).vel;
        assert!(v.x * v.x + v.y * v.y <= SHIP_MAX_VELOCITY_SQ);
    }
    let v = ship_of(&w).vel;
    assert!(v.x * v.x + v.y * v.y > SHIP_MAX_VELOCITY_SQ * 9 / 10);
}

/// Firing spawns one bullet at the ship's position, moving along the
/// (new) heading at 8 world units per tick, with nothing travelled yet.
#[test]
fn fire_spawns_bullet() {
    let mut w = world_with_ship(Velocity { x: 0, y: 0 }, 0);
    w.ship.as_mut().unwrap().pos = Position { x: 1_234, y: -5_678 };
    move_player(&mut w, &input(false, false, false, true));
    assert_eq!(w.bullets.len(), 1);
    let b = &w.bullets[0];
    assert_eq!(b.pos, Position { x: 1_234, y: -5_678 });
    assert_eq!(b.bullet.prev_pos, Position { x: 1_234, y: -5_678 });
    assert_eq!(b.bullet.dst_traveled, 0);
    assert_eq!(b.vel, Velocity { x: 0, y: BULLET_VELOCITY });
}

/// Without a rising edge no bullet spawns.
#[test]
fn no_fire_no_bullet() {
    let mut w = world_with_ship(Velocity { x: 0, y: 0 }, 0);
    move_player(&mut w, &input(false, false, true, false));
    assert_eq!(w.bullets.len(), 0);
}

/// Without a live ship the whole controller is a no-op.
#[test]
fn controller_is_noop_without_ship() {
    let mut w = World::new();
    move_player(&mut w, &input(true, false, true, true));
    assert!(w.ship.is_none());
    assert_eq!(w.bullets.len(), 0);
}

/// Entering play puts the ship at the center, at rest, score 0.
#[test]
fn setup_player_spawns_ship_at_center() {
    let mut w = World::new();
    setup_player(&mut w);
    let s = ship_of(&w);
    assert_eq!(s.pos, Position { x: 0, y: 0 });
    assert_eq!(s.vel, Velocity { x: 0, y: 0 });
    assert_eq!(s.player.heading_step, 0);
    assert_eq!(s.player.score, 0);
}
