//! Asteroids: sized drifting obstacles that split when shot.

use vstd::prelude::*;
use crate::heading::{
    dir_x_milli, dir_y_milli, direction_milli, lemma_dir_norm_sq, DIR_NORM_SQ_MAX, DIR_NORM_SQ_MIN,
};
use crate::position::{
    BOUNDS_MAX_X, BOUNDS_MAX_Y, BOUNDS_MIN_X, BOUNDS_MIN_Y, BOUNDS_X, BOUNDS_Y, Position, UNIT,
};
use crate::rng::random_u64;
use crate::velocity::Velocity;
use crate::world::{vel_in_range, AsteroidEntity, World};

verus! {

/// Number of asteroids spawned when a round starts.
pub const ASTEROID_NUM: usize = 12;

/// Children spawned when a non-minimum asteroid is destroyed.
pub const ASTEROID_SPLIT_NUM: usize = 2;

/// Asteroid speed in fixed-point units per tick (one world unit).
pub const ASTEROID_VELOCITY: i64 = UNIT;

/// Discrete size class of an asteroid; each tier maps to a fixed hit
/// radius, and a destroyed asteroid splits into two of the next smaller
/// tier until the smallest.
#[derive(Clone, Copy, PartialEq, Eq, Structural, Debug)]
pub enum AsteroidSize {
    Large,
    Medium,
    Small,
    Tiny,
}

/// The component attached to every asteroid entity.
#[derive(Clone, Copy, PartialEq, Eq, Structural, Debug)]
pub struct Asteroid {
    /// Asteroid size.
    pub size: AsteroidSize,
}

/// Hit radius of each tier in fixed-point units
/// (55, 35, 15 and 7.5 world units).
pub open spec fn scale_spec(s: AsteroidSize) -> int {
    match s {
        AsteroidSize::Large => 55_000,
        AsteroidSize::Medium => 35_000,
        AsteroidSize::Small => 15_000,
        AsteroidSize::Tiny => 7_500,
    }
}

/// Ordinal of a tier: Tiny = 0 up to Large = 3.
pub open spec fn tier_spec(s: AsteroidSize) -> int {
    match s {
        AsteroidSize::Large => 3,
        AsteroidSize::Medium => 2,
        AsteroidSize::Small => 1,
        AsteroidSize::Tiny => 0,
    }
}

/// The tier whose ordinal is `t`, with out-of-range values clamped to
/// the largest tier.
pub open spec fn from_tier_spec(t: int) -> AsteroidSize {
    if t <= 0 {
        AsteroidSize::Tiny
    } else if t == 1 {
        AsteroidSize::Small
    } else if t == 2 {
        AsteroidSize::Medium
    } else {
        AsteroidSize::Large
    }
}

/// The tier one below `s`, if any: what a destroyed asteroid's children
/// get, `None` at the minimum tier.
pub open spec fn smaller_spec(s: AsteroidSize) -> Option<AsteroidSize> {
    if tier_spec(s) == 0 {
        None
    } else {
        Some(from_tier_spec(tier_spec(s) - 1))
    }
}

impl AsteroidSize {
    /// Hit radius of this tier in fixed-point units.
    pub fn scale(&self) -> (r: i64)
        ensures
            r == scale_spec(*self),
    {
        match self {
            AsteroidSize::Large => 55_000,
            AsteroidSize::Medium => 35_000,
            AsteroidSize::Small => 15_000,
            AsteroidSize::Tiny => 7_500,
        }
    }

    /// Ordinal of this tier.
    pub fn tier(&self) -> (r: usize)
        ensures
            r == tier_spec(*self),
    {
        match self {
            AsteroidSize::Large => 3,
            AsteroidSize::Medium => 2,
            AsteroidSize::Small => 1,
            AsteroidSize::Tiny => 0,
        }
    }

    /// The tier with ordinal `t`, clamped into range.
    pub fn from_tier(t: usize) -> (r: AsteroidSize)
        ensures
            r == from_tier_spec(t as int),
    {
        if t == 0 {
            AsteroidSize::Tiny
        } else if t == 1 {
            AsteroidSize::Small
        } else if t == 2 {
            AsteroidSize::Medium
        } else {
            AsteroidSize::Large
        }
    }

    /// The tier one below this one, `None` at the minimum.
    pub fn smaller(&self) -> (r: Option<AsteroidSize>)
        ensures
            r == smaller_spec(*self),
    {
        match self {
            AsteroidSize::Large => Some(AsteroidSize::Medium),
            AsteroidSize::Medium => Some(AsteroidSize::Small),
            AsteroidSize::Small => Some(AsteroidSize::Tiny),
            AsteroidSize::Tiny => None,
        }
    }
}

/// A drift velocity: the facing direction of some heading step, so its
/// magnitude is the asteroid speed (one world unit per tick, short by at
/// most the table's round-off).
pub open spec fn is_drift_velocity(v: Velocity) -> bool {
    exists|s: int|
        0 <= s < 72 && v.x == #[trigger] dir_x_milli(s) && v.y == dir_y_milli(s)
}

/// Every drift velocity is in range and has squared magnitude within the
/// direction-table bounds around `ASTEROID_VELOCITY` squared.
pub proof fn lemma_drift_velocity_bounds(v: Velocity)
    requires
        is_drift_velocity(v),
    ensures
        vel_in_range(v),
        DIR_NORM_SQ_MIN <= v.norm_sq() <= DIR_NORM_SQ_MAX,
{
    let s = choose|s: int|
        0 <= s < 72 && v.x == #[trigger] dir_x_milli(s) && v.y == dir_y_milli(s);
    lemma_dir_norm_sq(s);
}

/// A drift velocity in a direction drawn from the random source.
pub fn random_drift_velocity() -> (v: Velocity)
    ensures
        is_drift_velocity(v),
        vel_in_range(v),
{
    let step: u8 = (random_u64() % 72) as u8;
    let d = direction_milli(step);
    let v = Velocity { x: d.0, y: d.1 };
    proof {
        assert(v.x == dir_x_milli(step as int) && v.y == dir_y_milli(step as int));
        lemma_drift_velocity_bounds(v);
    }
    v
}

/// A position inside the arena rectangle proper (not just its wrap
/// band): where asteroids spawn.
pub open spec fn pos_in_arena(p: Position) -> bool {
    &&& BOUNDS_MIN_X <= p.x <= BOUNDS_MAX_X
    &&& BOUNDS_MIN_Y <= p.y <= BOUNDS_MAX_Y
}

/// A spawn position drawn uniformly from the arena rectangle.
pub fn random_spawn_position() -> (p: Position)
    ensures
        pos_in_arena(p),
{
    let rx: u64 = random_u64() % (BOUNDS_X as u64 + 1);
    let ry: u64 = random_u64() % (BOUNDS_Y as u64 + 1);
    Position { x: rx as i64 - BOUNDS_MAX_X, y: ry as i64 - BOUNDS_MAX_Y }
}

/// Enter play: spawn `ASTEROID_NUM` large asteroids at random positions
/// in the arena, each drifting in a random direction at the asteroid
/// speed. Ship and bullets are untouched.
pub fn setup_asteroids(w: &mut World)
    requires
        old(w).wf(),
    ensures
        final(w).wf(),
        final(w).ship == old(w).ship,
        final(w).bullets@ == old(w).bullets@,
        final(w).asteroids@.len() == old(w).asteroids@.len() + ASTEROID_NUM,
        final(w).asteroids@.subrange(0, old(w).asteroids@.len() as int) == old(w).asteroids@,
        forall|k: int|
            old(w).asteroids@.len() <= k < final(w).asteroids@.len() ==> {
                let a = #[trigger] final(w).asteroids@[k];
                a.asteroid.size == AsteroidSize::Large && pos_in_arena(a.pos)
                    && is_drift_velocity(a.vel)
            },
{
    let ghost n0 = w.asteroids@.len();
    let mut i: usize = 0;
    while i < ASTEROID_NUM
        invariant
            old(w).wf(),
            w.ship == old(w).ship,
            w.bullets@ == old(w).bullets@,
            i <= ASTEROID_NUM,
            w.asteroids@.len() == n0 + i,
            w.asteroids@.subrange(0, n0 as int) =~= old(w).asteroids@,
            forall|k: int|
                0 <= k < n0 ==> #[trigger] w.asteroids@[k] == old(w).asteroids@[k],
            forall|k: int|
                n0 <= k < w.asteroids@.len() ==> {
                    let a = #[trigger] w.asteroids@[k];
                    a.asteroid.size == AsteroidSize::Large && pos_in_arena(a.pos)
                        && is_drift_velocity(a.vel) && a.wf()
                },
        decreases ASTEROID_NUM - i,
    {
        let pos = random_spawn_position();
        let vel = random_drift_velocity();
        w.asteroids.push(AsteroidEntity { asteroid: Asteroid { size: AsteroidSize::Large }, pos, vel });
        i = i + 1;
    }
}

} // verus!
