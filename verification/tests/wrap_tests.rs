//! Toroidal boundary behavior of the position integrator.

use asteroids::asteroid::{Asteroid, AsteroidSize};
use asteroids::bullet::Bullet;
use asteroids::player::Player;
use asteroids::position::{
    update_position, update_positions, wrap_coord, Position, BOUNDS_MAX_X, BOUNDS_MIN_X,
};
use asteroids::velocity::Velocity;
use asteroids::world::{AsteroidEntity, BulletEntity, ShipEntity, World};

fn pos(x: i64, y: i64) -> Position {
    Position { x, y }
}

fn vel(x: i64, y: i64) -> Velocity {
    Velocity { x, y }
}

/// Arena bounds are 600 / 320 world units from the center.
#[test]
fn arena_bounds_match_the_window() {
    assert_eq!(BOUNDS_MAX_X, 600_000);
    assert_eq!(BOUNDS_MIN_X, -600_000);
}

/// An entity at x = 599 moving right by 5 lands past the edge and wraps
/// to the left edge, x = -600 (half-scale 0).
#[test]
fn wraps_right_edge_to_left() {
    let p = update_position(pos(599_000, 0), vel(5_000, 0), 0);
    assert_eq!(p.x, -600_000);
    assert_eq!(p.y, 0);
}

/// Leaving through the left edge reappears on the right.
#[test]
fn wraps_left_edge_to_right() {
    let p = update_position(pos(-599_000, 0), vel(-5_000, 0), 0);
    assert_eq!(p.x, 600_000);
    assert_eq!(p.y, 0);
}

/// A diagonal exit wraps both axes independently.
#[test]
fn wraps_both_axes_on_diagonal_exit() {
    let p = update_position(pos(599_500, 319_500), vel(1_000, 1_000), 0);
    assert_eq!(p.x, -600_000);
    assert_eq!(p.y, -320_000);
}

/// Motion inside the arena is plain addition.
#[test]
fn no_wrap_inside_bounds() {
    let p = update_position(pos(10_000, -20_000), vel(300, 400), 1_000);
    assert_eq!(p.x, 10_300);
    assert_eq!(p.y, -19_600);
}

/// The half-scale widens the band: an entity of scale 1 wraps only once
/// fully off-screen, and reappears fully off the other side.
#[test]
fn half_scale_offsets_the_wrap() {
    let p = update_position(pos(600_000, 0), vel(2_000, 0), 1_000);
    assert_eq!(p.x, -601_000);
    let q = update_position(pos(600_000, 0), vel(500, 0), 1_000);
    assert_eq!(q.x, 600_500);
}

/// The integration stage advances ship, bullets and asteroids alike and
/// leaves every other component untouched.
#[test]
fn integration_moves_every_entity_kind() {
    let mut w = World::new();
    w.ship = Some(ShipEntity {
        player: Player { heading_step: 3, score: 7 },
        pos: Position { x: 0, y: 0 },
        vel: Velocity { x: 100, y: -200 },
    });
    w.bullets.push(BulletEntity {
        bullet: Bullet { prev_pos: Position { x: 5, y: 6 }, dst_traveled: 9 },
        pos: Position { x: 1_000, y: 2_000 },
        vel: Velocity { x: 8_000, y: 0 },
    });
    w.asteroids.push(AsteroidEntity {
        asteroid: Asteroid { size: AsteroidSize::Medium },
        pos: Position { x: 600_500, y: 0 },
        vel: Velocity { x: 1_000, y: 0 },
    });
    update_positions(&mut w);
    let s = w.ship.unwrap();
    assert_eq!(s.pos, Position { x: 100, y: -200 });
    assert_eq!(s.player, Player { heading_step: 3, score: 7 });
    assert_eq!(w.bullets[0].pos, Position { x: 9_000, y: 2_000 });
    assert_eq!(w.bullets[0].bullet.prev_pos, Position { x: 5, y: 6 });
    assert_eq!(w.bullets[0].bullet.dst_traveled, 9);
    // the asteroid leaves through the right edge of the band
    assert_eq!(w.asteroids[0].pos, Position { x: -601_000, y: 0 });
    assert_eq!(w.asteroids[0].asteroid.size, AsteroidSize::Medium);
}

/// A coordinate exactly on the band edge does not wrap.
#[test]
fn band_edge_is_inclusive() {
    assert_eq!(wrap_coord(601_000, -600_000, 600_000, 1_000), 601_000);
    assert_eq!(wrap_coord(601_001, -600_000, 600_000, 1_000), -601_000);
    assert_eq!(wrap_coord(-601_000, -600_000, 600_000, 1_000), -601_000);
    assert_eq!(wrap_coord(-601_001, -600_000, 600_000, 1_000), 601_000);
}
