//! World-space location of an entity and the arena's toroidal boundary.
//!
//! The arena is a fixed rectangle centered at the origin. Each tick a
//! position advances by its velocity; a coordinate that leaves the
//! rectangle by more than the entity's half-scale wraps to the opposite
//! edge, offset by that half-scale, so large sprites slide fully off one
//! side before reappearing on the other.

use vstd::prelude::*;
use crate::velocity::Velocity;
use crate::world::{AsteroidEntity, BulletEntity, ShipEntity, SPRITE_HALF_SCALE, World};

verus! {

/// Fixed-point units per world unit.
pub const UNIT: i64 = 1000;

/// Arena width in fixed-point units (1200 world units).
pub const BOUNDS_X: i64 = 1_200_000;

/// Arena height in fixed-point units (640 world units).
pub const BOUNDS_Y: i64 = 640_000;

/// Right edge of the arena; the origin is the arena's center.
pub const BOUNDS_MAX_X: i64 = 600_000;

/// Left edge of the arena.
pub const BOUNDS_MIN_X: i64 = -600_000;

/// Top edge of the arena.
pub const BOUNDS_MAX_Y: i64 = 320_000;

/// Bottom edge of the arena.
pub const BOUNDS_MIN_Y: i64 = -320_000;

/// Bound on every coordinate, velocity component and half-scale the
/// integrator accepts; keeps all its arithmetic far from `i64` overflow.
pub const COORD_LIMIT: i64 = 100_000_000;

/// A 2D location in fixed-point world coordinates, origin at the arena
/// center.
#[derive(Clone, Copy, PartialEq, Eq, Structural, Debug)]
pub struct Position {
    pub x: i64,
    pub y: i64,
}

impl Position {
    pub open spec fn origin_spec() -> Position {
        Position { x: 0, y: 0 }
    }

    pub fn origin() -> (p: Position)
        ensures
            p == Position::origin_spec(),
    {
        Position { x: 0, y: 0 }
    }
}

/// One coordinate after advancing and wrapping on the band
/// `[min - h, max + h]`: a coordinate past one end restarts at the other.
pub open spec fn wrap_coord_spec(n: int, min: int, max: int, h: int) -> int {
    if n > max + h {
        min - h
    } else if n < min - h {
        max + h
    } else {
        n
    }
}

/// The x coordinate one integration step later.
pub open spec fn step_x_spec(p: Position, v: Velocity, h: int) -> int {
    wrap_coord_spec(p.x + v.x, BOUNDS_MIN_X as int, BOUNDS_MAX_X as int, h)
}

/// The y coordinate one integration step later.
pub open spec fn step_y_spec(p: Position, v: Velocity, h: int) -> int {
    wrap_coord_spec(p.y + v.y, BOUNDS_MIN_Y as int, BOUNDS_MAX_Y as int, h)
}

/// Wrap invariant: whatever coordinate integration produced, the wrapped
/// coordinate lies inside the band `[min - h, max + h]`.
pub proof fn lemma_wrap_in_band(n: int, min: int, max: int, h: int)
    requires
        0 <= h,
        min <= max,
    ensures
        min - h <= wrap_coord_spec(n, min, max, h) <= max + h,
{
}

/// One coordinate of the integrator, executable form.
pub fn wrap_coord(n: i64, min: i64, max: i64, h: i64) -> (r: i64)
    requires
        -3 * COORD_LIMIT <= n <= 3 * COORD_LIMIT,
        -COORD_LIMIT <= min <= max <= COORD_LIMIT,
        0 <= h <= COORD_LIMIT,
    ensures
        r == wrap_coord_spec(n as int, min as int, max as int, h as int),
{
    if n > max + h {
        min - h
    } else if n < min - h {
        max + h
    } else {
        n
    }
}

/// Advance a position by one tick of its velocity and wrap each axis
/// independently on the arena band for half-scale `h`; the result always
/// lies inside that band (wrap invariant).
pub fn update_position(p: Position, v: Velocity, h: i64) -> (r: Position)
    requires
        -COORD_LIMIT <= p.x <= COORD_LIMIT,
        -COORD_LIMIT <= p.y <= COORD_LIMIT,
        -COORD_LIMIT <= v.x <= COORD_LIMIT,
        -COORD_LIMIT <= v.y <= COORD_LIMIT,
        0 <= h <= COORD_LIMIT,
    ensures
        r.x == step_x_spec(p, v, h as int),
        r.y == step_y_spec(p, v, h as int),
        BOUNDS_MIN_X - h <= r.x <= BOUNDS_MAX_X + h,
        BOUNDS_MIN_Y - h <= r.y <= BOUNDS_MAX_Y + h,
{
    let nx: i64 = p.x + v.x;
    let ny: i64 = p.y + v.y;
    let wx: i64 = wrap_coord(nx, BOUNDS_MIN_X, BOUNDS_MAX_X, h);
    let wy: i64 = wrap_coord(ny, BOUNDS_MIN_Y, BOUNDS_MAX_Y, h);
    Position { x: wx, y: wy }
}

/// Squared Euclidean distance between two positions.
pub open spec fn dist_sq_spec(p: Position, q: Position) -> int {
    (p.x - q.x) * (p.x - q.x) + (p.y - q.y) * (p.y - q.y)
}

/// Squared Euclidean distance, executable form; all circle-circle tests
/// compare it against a squared radius sum, so no square root is taken.
pub fn dist_sq(p: Position, q: Position) -> (r: u64)
    requires
        -COORD_LIMIT <= p.x <= COORD_LIMIT,
        -COORD_LIMIT <= p.y <= COORD_LIMIT,
        -COORD_LIMIT <= q.x <= COORD_LIMIT,
        -COORD_LIMIT <= q.y <= COORD_LIMIT,
    ensures
        r == dist_sq_spec(p, q),
{
    let dx: i64 = p.x - q.x;
    let dy: i64 = p.y - q.y;
    proof {
        assert(dx * dx <= 40_000_000_000_000_000 && dy * dy
            <= 40_000_000_000_000_000 && 0 <= dx * dx && 0 <= dy * dy) by (nonlinear_arith)
            requires
                -200_000_000 <= dx <= 200_000_000,
                -200_000_000 <= dy <= 200_000_000,
        ;
    }
    let sx: i64 = dx * dx;
    let sy: i64 = dy * dy;
    (sx + sy) as u64
}

/// The entity after one integration step at the common sprite
/// half-scale: position advanced and wrapped, everything else kept.
pub open spec fn stepped_pos(p: Position, v: Velocity) -> Position {
    Position {
        x: step_x_spec(p, v, SPRITE_HALF_SCALE as int) as i64,
        y: step_y_spec(p, v, SPRITE_HALF_SCALE as int) as i64,
    }
}

/// The integration stage's effect: every entity advanced by one wrapped
/// step, nothing spawned or removed, every other component kept.
pub open spec fn positions_updated(a: World, b: World) -> bool {
    &&& (b.ship is Some <==> a.ship is Some)
    &&& (a.ship is Some ==> b.ship->Some_0 == (ShipEntity {
        pos: stepped_pos(a.ship->Some_0.pos, a.ship->Some_0.vel),
        ..a.ship->Some_0
    }))
    &&& b.bullets@.len() == a.bullets@.len()
    &&& (forall|i: int|
        0 <= i < a.bullets@.len() ==> {
            let b0 = a.bullets@[i];
            let b1 = #[trigger] b.bullets@[i];
            b1.bullet == b0.bullet && b1.vel == b0.vel && b1.pos == stepped_pos(b0.pos, b0.vel)
        })
    &&& b.asteroids@.len() == a.asteroids@.len()
    &&& (forall|i: int|
        0 <= i < a.asteroids@.len() ==> {
            let a0 = a.asteroids@[i];
            let a1 = #[trigger] b.asteroids@[i];
            a1.asteroid == a0.asteroid && a1.vel == a0.vel && a1.pos == stepped_pos(a0.pos, a0.vel)
        })
}

/// Integration stage: advance every entity carrying a position and a
/// velocity by one tick and wrap it on the arena band. Runs first in
/// each tick; no entity is spawned or removed.
pub fn update_positions(w: &mut World)
    requires
        old(w).wf(),
    ensures
        final(w).wf(),
        positions_updated(*old(w), *final(w)),
{
    match w.ship {
        Some(s) => {
            let np = update_position(s.pos, s.vel, SPRITE_HALF_SCALE);
            w.ship = Some(ShipEntity { player: s.player, pos: np, vel: s.vel });
        },
        None => {},
    }
    let ghost ship1 = w.ship;
    let mut i: usize = 0;
    while i < w.bullets.len()
        invariant
            old(w).wf(),
            w.ship == ship1,
            w.asteroids@ == old(w).asteroids@,
            i <= w.bullets.len(),
            w.bullets@.len() == old(w).bullets@.len(),
            forall|j: int|
                0 <= j < i ==> {
                    let b0 = old(w).bullets@[j];
                    let b1 = #[trigger] w.bullets@[j];
                    b1.bullet == b0.bullet && b1.vel == b0.vel && b1.pos == stepped_pos(
                        b0.pos,
                        b0.vel,
                    ) && b1.wf()
                },
            forall|j: int| i <= j < w.bullets@.len() ==> w.bullets@[j] == old(w).bullets@[j],
        decreases w.bullets@.len() - i,
    {
        let b = w.bullets[i];
        let np = update_position(b.pos, b.vel, SPRITE_HALF_SCALE);
        w.bullets.set(i, BulletEntity { bullet: b.bullet, pos: np, vel: b.vel });
        i = i + 1;
    }
    let ghost bullets1 = w.bullets@;
    let mut i: usize = 0;
    while i < w.asteroids.len()
        invariant
            old(w).wf(),
            w.ship == ship1,
            w.bullets@ == bullets1,
            i <= w.asteroids.len(),
            w.asteroids@.len() == old(w).asteroids@.len(),
            forall|j: int|
                0 <= j < i ==> {
                    let a0 = old(w).asteroids@[j];
                    let a1 = #[trigger] w.asteroids@[j];
                    a1.asteroid == a0.asteroid && a1.vel == a0.vel && a1.pos == stepped_pos(
                        a0.pos,
                        a0.vel,
                    ) && a1.wf()
                },
            forall|j: int| i <= j < w.asteroids@.len() ==> w.asteroids@[j] == old(w).asteroids@[j],
        decreases w.asteroids@.len() - i,
    {
        let a = w.asteroids[i];
        let np = update_position(a.pos, a.vel, SPRITE_HALF_SCALE);
        w.asteroids.set(i, AsteroidEntity { asteroid: a.asteroid, pos: np, vel: a.vel });
        i = i + 1;
    }
}

} // verus!
