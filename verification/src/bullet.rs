//! Bullets: short-lived projectiles fired by the ship.

use vstd::prelude::*;
use crate::math::{isqrt, sqrt_floor};
use crate::position::{dist_sq, dist_sq_spec, Position, UNIT};
use crate::world::{BulletEntity, World};

verus! {

/// A bullet's velocity is its facing direction (in thousandths) times
/// this factor.
pub const BULLET_SPEED_FACTOR: i64 = 8;

/// Bullet speed in fixed-point units per tick (8 world units).
pub const BULLET_VELOCITY: i64 = BULLET_SPEED_FACTOR * UNIT;

/// A bullet is removed once its accumulated travel distance exceeds this
/// (20000 world units, fixed-point).
pub const BULLET_MAX_DISTANCE: i64 = 20_000_000;

/// The component attached to every bullet entity: where it was last
/// sampled and how far it has travelled since it was fired.
#[derive(Clone, Copy, PartialEq, Eq, Structural, Debug)]
pub struct Bullet {
    /// Position at the previous lifecycle check (the spawn point at
    /// first); the next check adds the distance from here.
    pub prev_pos: Position,
    /// Accumulated travel distance in fixed-point units.
    pub dst_traveled: i64,
}

/// One lifecycle check of a single bullet: the distance from the last
/// sample point (rounded down to whole fixed-point units) is added to
/// the travel total and the sample point moves up; a bullet whose total
/// exceeds the limit is removed (`None`).
pub open spec fn checked_bullet(b: BulletEntity) -> Option<BulletEntity> {
    let d = sqrt_floor(dist_sq_spec(b.pos, b.bullet.prev_pos));
    let nd = b.bullet.dst_traveled + d;
    if nd > BULLET_MAX_DISTANCE {
        None
    } else {
        Some(
            BulletEntity {
                bullet: Bullet { prev_pos: b.pos, dst_traveled: nd as i64 },
                pos: b.pos,
                vel: b.vel,
            },
        )
    }
}

/// The bullets surviving a lifecycle pass, in order, each with its
/// travel total and sample point advanced.
pub open spec fn pruned_bullets(s: Seq<BulletEntity>) -> Seq<BulletEntity>
    decreases s.len(),
{
    if s.len() == 0 {
        Seq::empty()
    } else {
        match checked_bullet(s[0]) {
            Some(b) => seq![b] + pruned_bullets(s.drop_first()),
            None => pruned_bullets(s.drop_first()),
        }
    }
}

/// The lifecycle stage's effect: bullets pruned by travel distance,
/// everything else kept.
pub open spec fn bullets_pruned(a: World, b: World) -> bool {
    &&& b.ship == a.ship
    &&& b.asteroids@ == a.asteroids@
    &&& b.bullets@ == pruned_bullets(a.bullets@)
}

/// Bullet lifecycle stage: accumulate each bullet's travel distance and
/// remove every bullet that has exceeded the travel limit. Ship and
/// asteroids are untouched.
pub fn remove_bullets(w: &mut World)
    requires
        old(w).wf(),
    ensures
        final(w).wf(),
        bullets_pruned(*old(w), *final(w)),
{
    let ghost all = w.bullets@;
    let mut kept: Vec<BulletEntity> = Vec::new();
    proof {
        assert(all.skip(0) =~= all);
        assert(Seq::<BulletEntity>::empty() + pruned_bullets(all) =~= pruned_bullets(all));
    }
    let mut i: usize = 0;
    while i < w.bullets.len()
        invariant
            old(w).wf(),
            w.ship == old(w).ship,
            w.asteroids@ == old(w).asteroids@,
            w.bullets@ == all,
            all == old(w).bullets@,
            i <= all.len(),
            pruned_bullets(all) == kept@ + pruned_bullets(all.skip(i as int)),
            forall|j: int| 0 <= j < kept@.len() ==> (#[trigger] kept@[j]).wf(),
        decreases all.len() - i,
    {
        let b = w.bullets[i];
        assert(b.wf());
        let s: u64 = dist_sq(b.pos, b.bullet.prev_pos);
        proof {
            assert(s <= 9_000_000_000_000u64) by (nonlinear_arith)
                requires
                    s == dist_sq_spec(b.pos, b.bullet.prev_pos),
                    -601_000 <= b.pos.x <= 601_000,
                    -601_000 <= b.pos.y <= 601_000,
                    -601_000 <= b.bullet.prev_pos.x <= 601_000,
                    -601_000 <= b.bullet.prev_pos.y <= 601_000,
            ;
        }
        let d: u64 = isqrt(s);
        proof {
            assert(d <= 3_000_000) by (nonlinear_arith)
                requires
                    d * d <= s,
                    s <= 9_000_000_000_000u64,
            ;
        }
        let nd: i64 = b.bullet.dst_traveled + d as i64;
        proof {
            assert(all.skip(i as int)[0] == b);
            assert(all.skip(i as int).drop_first() =~= all.skip(i as int + 1));
        }
        let ghost kept0 = kept@;
        if nd <= BULLET_MAX_DISTANCE {
            let nb = BulletEntity {
                bullet: Bullet { prev_pos: b.pos, dst_traveled: nd },
                pos: b.pos,
                vel: b.vel,
            };
            kept.push(nb);
            proof {
                assert(checked_bullet(b) == Some(nb));
                assert((kept0 + seq![nb]) + pruned_bullets(all.skip(i as int + 1)) =~= kept0 + (
                seq![nb] + pruned_bullets(all.skip(i as int + 1))));
                assert(kept@ =~= kept0 + seq![nb]);
            }
        } else {
            proof {
                assert(checked_bullet(b) is None);
            }
        }
        i = i + 1;
    }
    proof {
        assert(all.skip(all.len() as int) =~= Seq::<BulletEntity>::empty());
        assert(kept@ + Seq::<BulletEntity>::empty() =~= kept@);
    }
    w.bullets = kept;
}

} // verus!
