//! The player-controlled ship: heading, score, and the per-tick control
//! stage (rotate, thrust or coast, fire).

use vstd::prelude::*;
use crate::bullet::{Bullet, BULLET_SPEED_FACTOR};
use crate::heading::{
    DIR_MILLI, dir_x_milli, dir_y_milli, direction_milli, lemma_dir_norm_sq,
    step_left, step_right,
};
use crate::math::{
    abs_i64, abs_spec, is_sqrt_floor, isqrt, lemma_abs_sq, lemma_mul_div_trunc_abs,
    lemma_norm_axis, lemma_scaled_norm_bound, lemma_sq_le, lemma_sqrt_floor_exists,
    lemma_sqrt_floor_unique, mul_div_trunc, mul_div_trunc_spec, sqrt_floor,
};
use crate::position::Position;
use crate::velocity::Velocity;
use crate::world::{BulletEntity, InputState, ShipEntity, VEL_AXIS_LIMIT, World};
use vstd::arithmetic::div_mod::{lemma_div_is_ordered, lemma_div_multiples_vanish};
use vstd::arithmetic::mul::{lemma_mul_inequality, lemma_mul_is_commutative};

verus! {

/// Thrust gained per tick along the facing direction, in fixed-point
/// units (0.2 world units): one fifth of the direction vector.
pub const SHIP_ACCELERATION: i64 = 200;

/// Passive decay per coasting tick: velocity is scaled by 99/100.
pub const DECAY_NUM: u64 = 99;

/// Denominator of the passive decay.
pub const DECAY_DEN: u64 = 100;

/// Speed ceiling in fixed-point units per tick (10 world units).
pub const SHIP_MAX_VELOCITY: i64 = 10_000;

/// Square of the speed ceiling; the ship invariant is stated on squared
/// norms.
pub const SHIP_MAX_VELOCITY_SQ: i64 = SHIP_MAX_VELOCITY * SHIP_MAX_VELOCITY;

/// The singleton component of the player's ship.
#[derive(Clone, Copy, PartialEq, Eq, Structural, Debug)]
pub struct Player {
    /// Heading as a step count, `0 <= heading_step < 72`; each step is 5
    /// degrees counterclockwise and step 0 faces up.
    pub heading_step: u8,
    /// Asteroids destroyed by bullets this round.
    pub score: u64,
}

impl Player {
    pub open spec fn default_spec() -> Player {
        Player { heading_step: 0, score: 0 }
    }

    pub fn default_player() -> (p: Player)
        ensures
            p == Player::default_spec(),
    {
        Player { heading_step: 0, score: 0 }
    }
}

/// The velocity after the speed ceiling is applied: a velocity over the
/// ceiling is scaled down by `sqrt_floor(norm) + 1`, which lands it
/// strictly under the ceiling while keeping its direction; a velocity at
/// or under the ceiling (the zero vector among them) is untouched.
pub open spec fn clamp_speed_spec(v: Velocity) -> Velocity {
    if v.norm_sq() <= SHIP_MAX_VELOCITY_SQ {
        v
    } else {
        let q = sqrt_floor(v.norm_sq()) + 1;
        Velocity {
            x: mul_div_trunc_spec(v.x as int, SHIP_MAX_VELOCITY as int, q) as i64,
            y: mul_div_trunc_spec(v.y as int, SHIP_MAX_VELOCITY as int, q) as i64,
        }
    }
}

/// Enforce the speed ceiling on a ship velocity.
pub fn clamp_speed(v: Velocity) -> (r: Velocity)
    requires
        -1_000_000_000 <= v.x <= 1_000_000_000,
        -1_000_000_000 <= v.y <= 1_000_000_000,
    ensures
        r == clamp_speed_spec(v),
        r.norm_sq() <= SHIP_MAX_VELOCITY_SQ,
        abs_spec(r.x as int) <= abs_spec(v.x as int),
        abs_spec(r.y as int) <= abs_spec(v.y as int),
{
    let ax: u64 = abs_i64(v.x) as u64;
    let ay: u64 = abs_i64(v.y) as u64;
    proof {
        lemma_abs_sq(v.x as int);
        lemma_abs_sq(v.y as int);
        assert(ax * ax <= 1_000_000_000_000_000_000 && ay * ay
            <= 1_000_000_000_000_000_000) by (nonlinear_arith)
            requires
                ax <= 1_000_000_000,
                ay <= 1_000_000_000,
        ;
    }
    let s: u64 = ax * ax + ay * ay;
    assert(s == v.norm_sq());
    if s <= SHIP_MAX_VELOCITY_SQ as u64 {
        return v;
    }
    let n: u64 = isqrt(s);
    assert(n < 2_000_000_000) by (nonlinear_arith)
        requires
            is_sqrt_floor(s as int, n as int),
            s <= 2_000_000_000_000_000_000u64,
    ;
    let q: u64 = n + 1;
    assert(q > SHIP_MAX_VELOCITY as u64) by (nonlinear_arith)
        requires
            is_sqrt_floor(s as int, n as int),
            s > 100_000_000u64,
            q == n + 1,
    ;
    let rx: i64 = mul_div_trunc(v.x, SHIP_MAX_VELOCITY as u64, q);
    let ry: i64 = mul_div_trunc(v.y, SHIP_MAX_VELOCITY as u64, q);
    let r = Velocity { x: rx, y: ry };
    proof {
        lemma_sqrt_floor_unique(s as int, n as int);
        lemma_scaled_norm_bound(
            ax as int,
            ay as int,
            SHIP_MAX_VELOCITY as int,
            q as int,
            abs_spec(rx as int),
            abs_spec(ry as int),
        );
        lemma_abs_sq(rx as int);
        lemma_abs_sq(ry as int);
    }
    r
}

/// Spec-level form of the speed ceiling: the clamped velocity never
/// exceeds the ceiling, and no component grows.
pub proof fn lemma_clamp_norm(v: Velocity)
    requires
        -1_000_000_000 <= v.x <= 1_000_000_000,
        -1_000_000_000 <= v.y <= 1_000_000_000,
    ensures
        clamp_speed_spec(v).norm_sq() <= SHIP_MAX_VELOCITY_SQ,
        abs_spec(clamp_speed_spec(v).x as int) <= abs_spec(v.x as int),
        abs_spec(clamp_speed_spec(v).y as int) <= abs_spec(v.y as int),
{
    let s = v.norm_sq();
    lemma_abs_sq(v.x as int);
    lemma_abs_sq(v.y as int);
    let ax = abs_spec(v.x as int);
    let ay = abs_spec(v.y as int);
    assert(0 <= ax * ax && 0 <= ay * ay) by (nonlinear_arith)
        requires
            0 <= ax,
            0 <= ay,
    ;
    if s <= SHIP_MAX_VELOCITY_SQ {
    } else {
        let m = SHIP_MAX_VELOCITY as int;
        lemma_sqrt_floor_exists(s);
        let n = sqrt_floor(s);
        let q = n + 1;
        assert(q > m) by (nonlinear_arith)
            requires
                0 <= n,
                s < q * q,
                q == n + 1,
                s > m * m,
                0 < m,
        ;
        lemma_mul_div_trunc_abs(v.x as int, m, q);
        lemma_mul_div_trunc_abs(v.y as int, m, q);
        let mx = mul_div_trunc_spec(v.x as int, m, q);
        let my = mul_div_trunc_spec(v.y as int, m, q);
        // the scaled components are no larger in magnitude
        lemma_mul_inequality(m, q, ax);
        lemma_mul_inequality(m, q, ay);
        lemma_mul_is_commutative(ax, m);
        lemma_mul_is_commutative(ax, q);
        lemma_mul_is_commutative(ay, m);
        lemma_mul_is_commutative(ay, q);
        lemma_div_is_ordered(ax * m, ax * q, q);
        lemma_div_is_ordered(ay * m, ay * q, q);
        lemma_div_multiples_vanish(ax, q);
        lemma_div_multiples_vanish(ay, q);
        assert(abs_spec(mx) <= ax && abs_spec(my) <= ay);
        let r = clamp_speed_spec(v);
        assert(r.x == mx && r.y == my);
        lemma_scaled_norm_bound(ax, ay, m, q, abs_spec(mx), abs_spec(my));
        lemma_abs_sq(mx);
        lemma_abs_sq(my);
    }
}

/// The heading after the rotation stage: one step counterclockwise while
/// "rotate left" is held, one step clockwise while "rotate right" is
/// held; holding both cancels out.
pub open spec fn rotated_step(h: int, input: InputState) -> int {
    let h1 = if input.left { (h + 1) % 72 } else { h };
    if input.right { (h1 + 71) % 72 } else { h1 }
}

/// The velocity gained by one tick of thrust along heading `h`: the
/// facing direction scaled by the acceleration, rounded toward zero.
pub open spec fn thrust_dx(h: int) -> int {
    mul_div_trunc_spec(dir_x_milli(h), SHIP_ACCELERATION as int, DIR_MILLI as int)
}

/// Y component of one tick of thrust along heading `h`.
pub open spec fn thrust_dy(h: int) -> int {
    mul_div_trunc_spec(dir_y_milli(h), SHIP_ACCELERATION as int, DIR_MILLI as int)
}

/// The velocity after one coasting tick: both components decay by
/// 99/100, rounded toward zero.
pub open spec fn decayed_vel(v: Velocity) -> Velocity {
    Velocity {
        x: mul_div_trunc_spec(v.x as int, DECAY_NUM as int, DECAY_DEN as int) as i64,
        y: mul_div_trunc_spec(v.y as int, DECAY_NUM as int, DECAY_DEN as int) as i64,
    }
}

/// The ship's velocity after the thrust stage at (already rotated)
/// heading `h`: thrust accelerates along the facing direction and is
/// clamped to the speed ceiling; otherwise the velocity decays.
pub open spec fn next_vel(v: Velocity, h: int, input: InputState) -> Velocity {
    if input.thrust {
        clamp_speed_spec(
            Velocity { x: (v.x + thrust_dx(h)) as i64, y: (v.y + thrust_dy(h)) as i64 },
        )
    } else {
        decayed_vel(v)
    }
}

/// The bullet spawned by a fire action at ship position `pos` and
/// heading `h`: it starts at the ship, has travelled nothing, and moves
/// along the facing direction at the bullet speed.
pub open spec fn fired_bullet(pos: Position, h: int) -> BulletEntity {
    BulletEntity {
        bullet: Bullet { prev_pos: pos, dst_traveled: 0 },
        pos: pos,
        vel: Velocity {
            x: (dir_x_milli(h) * BULLET_SPEED_FACTOR) as i64,
            y: (dir_y_milli(h) * BULLET_SPEED_FACTOR) as i64,
        },
    }
}

/// Speed ceiling law: from any velocity under the ceiling (any sequence
/// of earlier thrust ticks keeps the ship there), the thrust stage's
/// result is again under the ceiling, whether it thrusts or coasts.
pub proof fn lemma_speed_ceiling(v: Velocity, h: int, input: InputState)
    requires
        v.norm_sq() <= SHIP_MAX_VELOCITY_SQ,
        -VEL_AXIS_LIMIT <= v.x <= VEL_AXIS_LIMIT,
        -VEL_AXIS_LIMIT <= v.y <= VEL_AXIS_LIMIT,
        0 <= h < 72,
    ensures
        next_vel(v, h, input).norm_sq() <= SHIP_MAX_VELOCITY_SQ,
{
    if input.thrust {
        lemma_dir_norm_sq(h);
        lemma_mul_div_trunc_abs(dir_x_milli(h), SHIP_ACCELERATION as int, DIR_MILLI as int);
        lemma_mul_div_trunc_abs(dir_y_milli(h), SHIP_ACCELERATION as int, DIR_MILLI as int);
        assert(abs_spec(thrust_dx(h)) <= SHIP_ACCELERATION && abs_spec(thrust_dy(h))
            <= SHIP_ACCELERATION) by (nonlinear_arith)
            requires
                abs_spec(thrust_dx(h)) == (abs_spec(dir_x_milli(h)) * SHIP_ACCELERATION as int)
                    / (DIR_MILLI as int),
                abs_spec(thrust_dy(h)) == (abs_spec(dir_y_milli(h)) * SHIP_ACCELERATION as int)
                    / (DIR_MILLI as int),
                abs_spec(dir_x_milli(h)) <= DIR_MILLI,
                abs_spec(dir_y_milli(h)) <= DIR_MILLI,
        ;
        lemma_clamp_norm(Velocity { x: (v.x + thrust_dx(h)) as i64, y: (v.y + thrust_dy(h)) as i64 });
    } else {
        lemma_mul_div_trunc_abs(v.x as int, DECAY_NUM as int, DECAY_DEN as int);
        lemma_mul_div_trunc_abs(v.y as int, DECAY_NUM as int, DECAY_DEN as int);
        let d = decayed_vel(v);
        lemma_mul_inequality(DECAY_NUM as int, DECAY_DEN as int, abs_spec(v.x as int));
        lemma_mul_inequality(DECAY_NUM as int, DECAY_DEN as int, abs_spec(v.y as int));
        lemma_mul_is_commutative(abs_spec(v.x as int), DECAY_NUM as int);
        lemma_mul_is_commutative(abs_spec(v.x as int), DECAY_DEN as int);
        lemma_mul_is_commutative(abs_spec(v.y as int), DECAY_NUM as int);
        lemma_mul_is_commutative(abs_spec(v.y as int), DECAY_DEN as int);
        lemma_div_is_ordered(
            abs_spec(v.x as int) * DECAY_NUM as int,
            abs_spec(v.x as int) * DECAY_DEN as int,
            DECAY_DEN as int,
        );
        lemma_div_is_ordered(
            abs_spec(v.y as int) * DECAY_NUM as int,
            abs_spec(v.y as int) * DECAY_DEN as int,
            DECAY_DEN as int,
        );
        lemma_div_multiples_vanish(abs_spec(v.x as int), DECAY_DEN as int);
        lemma_div_multiples_vanish(abs_spec(v.y as int), DECAY_DEN as int);
        lemma_sq_le(abs_spec(d.x as int), abs_spec(v.x as int));
        lemma_sq_le(abs_spec(d.y as int), abs_spec(v.y as int));
        lemma_abs_sq(d.x as int);
        lemma_abs_sq(d.y as int);
        lemma_abs_sq(v.x as int);
        lemma_abs_sq(v.y as int);
    }
}

/// The ship-control stage's effect: heading rotated, velocity thrust or
/// decayed under the speed ceiling, one bullet appended on a fire edge;
/// a no-op without a live ship.
pub open spec fn player_moved(a: World, b: World, input: InputState) -> bool {
    &&& b.asteroids@ == a.asteroids@
    &&& (a.ship is None ==> b.ship is None && b.bullets@ == a.bullets@)
    &&& (a.ship is Some ==> {
        let s0 = a.ship->Some_0;
        let h1 = rotated_step(s0.player.heading_step as int, input);
        &&& b.ship == Some(
            ShipEntity {
                player: Player { heading_step: h1 as u8, score: s0.player.score },
                pos: s0.pos,
                vel: next_vel(s0.vel, h1, input),
            },
        )
        &&& b.bullets@ == if input.fire {
            a.bullets@.push(fired_bullet(s0.pos, h1))
        } else {
            a.bullets@
        }
    })
}

/// Ship control stage, a no-op without a live ship. In order: rotate by
/// the held directions, then thrust (with the speed ceiling) or coast
/// (with passive decay), then, on the rising edge of the fire action,
/// spawn one bullet at the ship's position along its new heading.
pub fn move_player(w: &mut World, input: &InputState)
    requires
        old(w).wf(),
    ensures
        final(w).wf(),
        player_moved(*old(w), *final(w), *input),
{
    let s = match w.ship {
        Some(s) => s,
        None => {
            return ;
        },
    };
    let mut h: u8 = s.player.heading_step;
    if input.left {
        h = step_left(h);
    }
    if input.right {
        h = step_right(h);
    }
    assert(h == rotated_step(s.player.heading_step as int, *input));
    let d = direction_milli(h);
    proof {
        lemma_dir_norm_sq(h as int);
        lemma_speed_ceiling(s.vel, h as int, *input);
    }
    let vel: Velocity = if input.thrust {
        let dvx: i64 = mul_div_trunc(d.0, SHIP_ACCELERATION as u64, DIR_MILLI as u64);
        let dvy: i64 = mul_div_trunc(d.1, SHIP_ACCELERATION as u64, DIR_MILLI as u64);
        proof {
            lemma_mul_div_trunc_abs(d.0 as int, SHIP_ACCELERATION as int, DIR_MILLI as int);
            lemma_mul_div_trunc_abs(d.1 as int, SHIP_ACCELERATION as int, DIR_MILLI as int);
            assert(abs_spec(dvx as int) <= SHIP_ACCELERATION && abs_spec(dvy as int)
                <= SHIP_ACCELERATION) by (nonlinear_arith)
                requires
                    abs_spec(dvx as int) == (abs_spec(d.0 as int) * SHIP_ACCELERATION as int) / (
                    DIR_MILLI as int),
                    abs_spec(dvy as int) == (abs_spec(d.1 as int) * SHIP_ACCELERATION as int) / (
                    DIR_MILLI as int),
                    abs_spec(d.0 as int) <= DIR_MILLI,
                    abs_spec(d.1 as int) <= DIR_MILLI,
            ;
        }
        clamp_speed(Velocity { x: s.vel.x + dvx, y: s.vel.y + dvy })
    } else {
        Velocity {
            x: mul_div_trunc(s.vel.x, DECAY_NUM, DECAY_DEN),
            y: mul_div_trunc(s.vel.y, DECAY_NUM, DECAY_DEN),
        }
    };
    proof {
        lemma_norm_axis(vel.x as int, vel.y as int, SHIP_MAX_VELOCITY as int);
    }
    w.ship = Some(
        ShipEntity { player: Player { heading_step: h, score: s.player.score }, pos: s.pos, vel },
    );
    if input.fire {
        let bvx: i64 = d.0 * BULLET_SPEED_FACTOR;
        let bvy: i64 = d.1 * BULLET_SPEED_FACTOR;
        w.bullets.push(
            BulletEntity {
                bullet: Bullet { prev_pos: s.pos, dst_traveled: 0 },
                pos: s.pos,
                vel: Velocity { x: bvx, y: bvy },
            },
        );
    }
}

/// Enter play: spawn the singleton ship at the arena center, at rest,
/// facing up, with a zero score. Bullets and asteroids are untouched.
pub fn setup_player(w: &mut World)
    requires
        old(w).wf(),
    ensures
        final(w).wf(),
        final(w).ship == Some(
            ShipEntity {
                player: Player::default_spec(),
                pos: Position::origin_spec(),
                vel: Velocity::zero_spec(),
            },
        ),
        final(w).bullets@ == old(w).bullets@,
        final(w).asteroids@ == old(w).asteroids@,
{
    w.ship = Some(
        ShipEntity { player: Player::default_player(), pos: Position::origin(), vel: Velocity::zero() },
    );
}

} // verus!
