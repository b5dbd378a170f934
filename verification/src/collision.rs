//! Collision engine: circle-circle tests between ship, bullets and
//! asteroids, the asteroid split on a bullet hit, and the score.
//!
//! Both scans defer structural changes: the bullet scan collects
//! surviving bullets and spawned children aside and applies them when the
//! scan is done, so no entity is processed twice within one tick.

use vstd::prelude::*;
use crate::asteroid::{
    is_drift_velocity, random_drift_velocity, scale_spec, smaller_spec, tier_spec, Asteroid,
    AsteroidSize,
};
use crate::player::Player;
use crate::position::{dist_sq, dist_sq_spec, Position, COORD_LIMIT};
use crate::world::{
    pos_in_band, AsteroidEntity, BulletEntity, ShipEntity, World, SPRITE_HALF_SCALE,
};

verus! {

/// Circle-circle overlap, stated on squared lengths: the centers are
/// closer than the sum of the radii.
pub open spec fn circles_overlap(p: Position, q: Position, r1: int, r2: int) -> bool {
    dist_sq_spec(p, q) < (r1 + r2) * (r1 + r2)
}

/// The ship (hit radius from its sprite scale) overlaps the asteroid
/// (hit radius from its tier).
pub open spec fn ship_hits_asteroid(s: ShipEntity, a: AsteroidEntity) -> bool {
    circles_overlap(s.pos, a.pos, SPRITE_HALF_SCALE as int, scale_spec(a.asteroid.size))
}

/// The bullet (hit radius from its sprite scale) overlaps the asteroid.
pub open spec fn bullet_hits_asteroid(b: BulletEntity, a: AsteroidEntity) -> bool {
    circles_overlap(b.pos, a.pos, SPRITE_HALF_SCALE as int, scale_spec(a.asteroid.size))
}

/// Some live asteroid overlaps the live ship.
pub open spec fn ship_collision(w: World) -> bool {
    w.ship is Some && exists|i: int|
        0 <= i < w.asteroids@.len() && ship_hits_asteroid(
            w.ship->Some_0,
            #[trigger] w.asteroids@[i],
        )
}

/// Circle-circle overlap test, executable form.
fn hit_test(p: Position, q: Position, r1: i64, r2: i64) -> (hit: bool)
    requires
        -COORD_LIMIT <= p.x <= COORD_LIMIT,
        -COORD_LIMIT <= p.y <= COORD_LIMIT,
        -COORD_LIMIT <= q.x <= COORD_LIMIT,
        -COORD_LIMIT <= q.y <= COORD_LIMIT,
        0 <= r1 <= 100_000,
        0 <= r2 <= 100_000,
    ensures
        hit == circles_overlap(p, q, r1 as int, r2 as int),
{
    let s: u64 = dist_sq(p, q);
    let rs: u64 = (r1 + r2) as u64;
    proof {
        assert(rs * rs <= 40_000_000_000u64) by (nonlinear_arith)
            requires
                rs <= 200_000u64,
        ;
    }
    s < rs * rs
}

/// Ship-asteroid check: whether any live asteroid overlaps the ship;
/// with no live ship there is nothing to hit. The store is only read: on
/// a hit the caller signals the end of the round.
pub fn detect_asteroid_ship_collisions(w: &World) -> (hit: bool)
    requires
        w.wf(),
    ensures
        hit == ship_collision(*w),
{
    let s = match w.ship {
        Some(s) => s,
        None => {
            return false;
        },
    };
    let mut i: usize = 0;
    while i < w.asteroids.len()
        invariant
            w.wf(),
            w.ship == Some(s),
            i <= w.asteroids.len(),
            forall|k: int| 0 <= k < i ==> !ship_hits_asteroid(s, #[trigger] w.asteroids@[k]),
        decreases w.asteroids@.len() - i,
    {
        let a = w.asteroids[i];
        if hit_test(s.pos, a.pos, SPRITE_HALF_SCALE, a.asteroid.size.scale()) {
            return true;
        }
        i = i + 1;
    }
    false
}

/// The children a destroyed asteroid leaves: two, one tier smaller, at
/// the parent's position (their random drift directions are not part of
/// the model); none when the parent is already the smallest.
pub open spec fn child_pairs(a: AsteroidEntity) -> Seq<(AsteroidSize, Position)> {
    match smaller_spec(a.asteroid.size) {
        None => Seq::empty(),
        Some(sz) => seq![(sz, a.pos), (sz, a.pos)],
    }
}

/// Split conservation law: a destroyed non-minimum asteroid yields
/// exactly two children exactly one tier smaller at the parent's
/// position; a destroyed minimum-tier asteroid yields none.
pub proof fn lemma_split_conservation(a: AsteroidEntity)
    ensures
        a.asteroid.size != AsteroidSize::Tiny ==> {
            &&& child_pairs(a).len() == 2
            &&& child_pairs(a)[0].0 == from_tier_one_less(a.asteroid.size)
            &&& child_pairs(a)[1].0 == from_tier_one_less(a.asteroid.size)
            &&& child_pairs(a)[0].1 == a.pos
            &&& child_pairs(a)[1].1 == a.pos
        },
        a.asteroid.size == AsteroidSize::Tiny ==> child_pairs(a).len() == 0,
{
}

/// The tier one below a non-minimum tier.
pub open spec fn from_tier_one_less(s: AsteroidSize) -> AsteroidSize {
    crate::asteroid::from_tier_spec(tier_spec(s) - 1)
}

/// The first live asteroid a bullet overlaps, scanning in store order.
pub open spec fn first_hit(b: BulletEntity, asts: Seq<AsteroidEntity>) -> Option<int>
    decreases asts.len(),
{
    if asts.len() == 0 {
        None
    } else if bullet_hits_asteroid(b, asts[0]) {
        Some(0int)
    } else {
        match first_hit(b, asts.drop_first()) {
            None => None,
            Some(j) => Some(j + 1),
        }
    }
}

/// If the first `j` asteroids all miss, the first hit in the whole
/// store is the first hit past them, shifted by `j`.
proof fn lemma_first_hit_skip(b: BulletEntity, asts: Seq<AsteroidEntity>, j: int)
    requires
        0 <= j <= asts.len(),
        forall|k: int| 0 <= k < j ==> !bullet_hits_asteroid(b, #[trigger] asts[k]),
    ensures
        first_hit(b, asts) == match first_hit(b, asts.skip(j)) {
            None => None::<int>,
            Some(t) => Some(t + j),
        },
    decreases j,
{
    if j == 0 {
        assert(asts.skip(0) =~= asts);
    } else {
        lemma_first_hit_skip(b, asts, j - 1);
        assert(asts.skip(j - 1)[0] == asts[j - 1]);
        assert(asts.skip(j - 1).drop_first() =~= asts.skip(j));
    }
}

/// Index of the first live asteroid the bullet overlaps, if any.
fn find_first_hit(b: &BulletEntity, asts: &Vec<AsteroidEntity>) -> (r: Option<usize>)
    requires
        pos_in_band(b.pos),
        forall|k: int| 0 <= k < asts@.len() ==> (#[trigger] asts@[k]).wf(),
    ensures
        match r {
            None => first_hit(*b, asts@) is None,
            Some(j) => j < asts@.len() && first_hit(*b, asts@) == Some(j as int),
        },
{
    let mut j: usize = 0;
    while j < asts.len()
        invariant
            pos_in_band(b.pos),
            forall|k: int| 0 <= k < asts@.len() ==> (#[trigger] asts@[k]).wf(),
            j <= asts@.len(),
            forall|k: int| 0 <= k < j ==> !bullet_hits_asteroid(*b, #[trigger] asts@[k]),
        decreases asts@.len() - j,
    {
        let a = asts[j];
        if hit_test(b.pos, a.pos, SPRITE_HALF_SCALE, a.asteroid.size.scale()) {
            proof {
                lemma_first_hit_skip(*b, asts@, j as int);
                assert(asts@.skip(j as int)[0] == asts@[j as int]);
            }
            return Some(j);
        }
        j = j + 1;
    }
    proof {
        lemma_first_hit_skip(*b, asts@, asts@.len() as int);
        assert(asts@.skip(asts@.len() as int) =~= Seq::<AsteroidEntity>::empty());
    }
    None
}

/// One pass of the bullet-asteroid scan, bullets in store order: a
/// bullet that overlaps a live asteroid is consumed, the first such
/// asteroid is destroyed (leaving its children pending), and one point
/// is scored; a bullet that hits nothing survives. Fields: surviving
/// asteroids, surviving bullets, pending children, asteroids destroyed.
pub open spec fn scan_bullets(bs: Seq<BulletEntity>, asts: Seq<AsteroidEntity>) -> (
    Seq<AsteroidEntity>,
    Seq<BulletEntity>,
    Seq<(AsteroidSize, Position)>,
    int,
)
    decreases bs.len(),
{
    if bs.len() == 0 {
        (asts, Seq::empty(), Seq::empty(), 0int)
    } else {
        match first_hit(bs[0], asts) {
            None => {
                let r = scan_bullets(bs.drop_first(), asts);
                (r.0, seq![bs[0]] + r.1, r.2, r.3)
            },
            Some(j) => {
                let r = scan_bullets(bs.drop_first(), asts.remove(j));
                (r.0, r.1, child_pairs(asts[j]) + r.2, r.3 + 1)
            },
        }
    }
}

/// Score law: the scan scores exactly one point per destroyed asteroid
/// -- the number destroyed is the number that did not survive, and the
/// score delta equals it.
pub proof fn lemma_score_per_destroyed(bs: Seq<BulletEntity>, asts: Seq<AsteroidEntity>)
    ensures
        scan_bullets(bs, asts).3 == asts.len() - scan_bullets(bs, asts).0.len(),
        0 <= scan_bullets(bs, asts).3 <= asts.len(),
    decreases bs.len(),
{
    if bs.len() == 0 {
    } else {
        match first_hit(bs[0], asts) {
            None => {
                lemma_score_per_destroyed(bs.drop_first(), asts);
            },
            Some(j) => {
                lemma_first_hit_in_range(bs[0], asts);
                lemma_score_per_destroyed(bs.drop_first(), asts.remove(j));
            },
        }
    }
}

/// A first hit is an index into the store.
proof fn lemma_first_hit_in_range(b: BulletEntity, asts: Seq<AsteroidEntity>)
    ensures
        first_hit(b, asts) matches Some(j) ==> 0 <= j < asts.len(),
    decreases asts.len(),
{
    if asts.len() != 0 && !bullet_hits_asteroid(b, asts[0]) {
        lemma_first_hit_in_range(b, asts.drop_first());
    }
}

/// Bullet-asteroid scan stage, a no-op without a live ship (no one to
/// score). Every bullet is tested against the asteroids still live
/// within this scan; each hit consumes the bullet, destroys the
/// asteroid, leaves its children (with fresh random drift directions)
/// pending, and scores one point. Children spawn after the scan, so they
/// cannot be hit in the tick that created them.
/// The bullet-asteroid stage's effect: the scan's surviving bullets and
/// asteroids, the pending children appended after the survivors (sizes
/// and positions from the scan, drift directions random), and one point
/// scored per destroyed asteroid; a no-op without a live ship.
pub open spec fn bullet_collisions_resolved(a: World, b: World) -> bool {
    &&& (a.ship is None ==> b.ship is None && b.bullets@ == a.bullets@ && b.asteroids@
        == a.asteroids@)
    &&& (a.ship is Some ==> {
        let s0 = a.ship->Some_0;
        let r = scan_bullets(a.bullets@, a.asteroids@);
        &&& b.bullets@ == r.1
        &&& b.asteroids@.len() == r.0.len() + r.2.len()
        &&& b.asteroids@.subrange(0, r.0.len() as int) == r.0
        &&& (forall|k: int|
            0 <= k < r.2.len() ==> {
                let c = #[trigger] b.asteroids@[r.0.len() + k];
                c.asteroid.size == r.2[k].0 && c.pos == r.2[k].1 && is_drift_velocity(c.vel)
            })
        &&& b.ship == Some(
            ShipEntity {
                player: Player {
                    heading_step: s0.player.heading_step,
                    score: (s0.player.score + r.3) as u64,
                },
                pos: s0.pos,
                vel: s0.vel,
            },
        )
    })
}

pub fn detect_asteroid_bullet_collisions(w: &mut World)
    requires
        old(w).wf(),
        old(w).ship is Some ==> old(w).ship->Some_0.player.score + old(w).asteroids@.len()
            <= u64::MAX,
    ensures
        final(w).wf(),
        bullet_collisions_resolved(*old(w), *final(w)),
{
    let s = match w.ship {
        Some(s) => s,
        None => {
            return ;
        },
    };
    let ghost bs0 = w.bullets@;
    let ghost as0 = w.asteroids@;
    let n_asts: usize = w.asteroids.len();
    assert(as0.len() == n_asts);
    let ghost full = scan_bullets(bs0, as0);
    let mut kept: Vec<BulletEntity> = Vec::new();
    let mut children: Vec<AsteroidEntity> = Vec::new();
    let ghost mut cpairs: Seq<(AsteroidSize, Position)> = Seq::empty();
    let mut destroyed: u64 = 0;
    proof {
        assert(bs0.skip(0) =~= bs0);
        assert(Seq::<BulletEntity>::empty() + full.1 =~= full.1);
        assert(Seq::<(AsteroidSize, Position)>::empty() + full.2 =~= full.2);
    }
    let mut i: usize = 0;
    while i < w.bullets.len()
        invariant
            old(w).wf(),
            w.ship == old(w).ship,
            w.bullets@ == bs0,
            bs0 == old(w).bullets@,
            as0 == old(w).asteroids@,
            full == scan_bullets(bs0, as0),
            i <= bs0.len(),
            forall|k: int| 0 <= k < w.asteroids@.len() ==> (#[trigger] w.asteroids@[k]).wf(),
            w.asteroids@.len() == as0.len() - destroyed,
            as0.len() == n_asts,
            full.0 == scan_bullets(bs0.skip(i as int), w.asteroids@).0,
            full.1 == kept@ + scan_bullets(bs0.skip(i as int), w.asteroids@).1,
            full.2 == cpairs + scan_bullets(bs0.skip(i as int), w.asteroids@).2,
            full.3 == destroyed + scan_bullets(bs0.skip(i as int), w.asteroids@).3,
            forall|k: int| 0 <= k < kept@.len() ==> (#[trigger] kept@[k]).wf(),
            cpairs.len() == children@.len(),
            forall|k: int|
                0 <= k < children@.len() ==> {
                    let c = #[trigger] children@[k];
                    c.asteroid.size == cpairs[k].0 && c.pos == cpairs[k].1 && is_drift_velocity(
                        c.vel,
                    ) && c.wf()
                },
        decreases bs0.len() - i,
    {
        let b = w.bullets[i];
        proof {
            assert(bs0.skip(i as int)[0] == b);
            assert(bs0.skip(i as int).drop_first() =~= bs0.skip(i as int + 1));
        }
        let hit = find_first_hit(&b, &w.asteroids);
        let ghost kept0 = kept@;
        let ghost cpairs0 = cpairs;
        match hit {
            None => {
                kept.push(b);
                proof {
                    assert(kept@ =~= kept0 + seq![b]);
                    assert((kept0 + seq![b]) + scan_bullets(
                        bs0.skip(i as int + 1),
                        w.asteroids@,
                    ).1 =~= kept0 + (seq![b] + scan_bullets(bs0.skip(i as int + 1), w.asteroids@).1));
                }
            },
            Some(j) => {
                let ghost asts_before = w.asteroids@;
                let parent = w.asteroids.remove(j);
                match parent.asteroid.size.smaller() {
                    Some(nsz) => {
                        let v1 = random_drift_velocity();
                        let v2 = random_drift_velocity();
                        let c1 = AsteroidEntity { asteroid: Asteroid { size: nsz }, pos: parent.pos, vel: v1 };
                        let c2 = AsteroidEntity { asteroid: Asteroid { size: nsz }, pos: parent.pos, vel: v2 };
                        children.push(c1);
                        children.push(c2);
                        proof {
                            cpairs = cpairs + child_pairs(parent);
                        }
                    },
                    None => {
                        proof {
                            assert(child_pairs(parent) =~= Seq::<(AsteroidSize, Position)>::empty());
                            cpairs = cpairs + child_pairs(parent);
                        }
                    },
                }
                destroyed = destroyed + 1;
                proof {
                    assert((cpairs0 + child_pairs(parent)) + scan_bullets(
                        bs0.skip(i as int + 1),
                        w.asteroids@,
                    ).2 =~= cpairs0 + (child_pairs(parent) + scan_bullets(
                        bs0.skip(i as int + 1),
                        w.asteroids@,
                    ).2));
                    assert(cpairs =~= cpairs0 + child_pairs(parent));
                }
            },
        }
        i = i + 1;
    }
    proof {
        assert(bs0.skip(bs0.len() as int) =~= Seq::<BulletEntity>::empty());
        assert(kept@ + Seq::<BulletEntity>::empty() =~= kept@);
        assert(cpairs + Seq::<(AsteroidSize, Position)>::empty() =~= cpairs);
    }
    w.bullets = kept;
    let ghost survivors = w.asteroids@;
    w.asteroids.append(&mut children);
    proof {
        assert(w.asteroids@.subrange(0, survivors.len() as int) =~= survivors);
    }
    w.ship = Some(
        ShipEntity {
            player: Player { heading_step: s.player.heading_step, score: s.player.score + destroyed },
            pos: s.pos,
            vel: s.vel,
        },
    );
    proof {
        lemma_score_per_destroyed(bs0, as0);
    }
}

/// Victory check: the round is won once a live ship has cleared every
/// asteroid.
pub fn check_win_condition(w: &World) -> (won: bool)
    ensures
        won == (w.ship is Some && w.asteroids@.len() == 0),
{
    match &w.ship {
        Some(_) => w.asteroids.is_empty(),
        None => false,
    }
}

/// Leave play: despawn the ship and every bullet and asteroid.
pub fn cleanup_game_entities(w: &mut World)
    ensures
        final(w).wf(),
        final(w).ship is None,
        final(w).bullets@.len() == 0,
        final(w).asteroids@.len() == 0,
{
    w.ship = None;
    w.bullets.clear();
    w.asteroids.clear();
}

} // verus!
