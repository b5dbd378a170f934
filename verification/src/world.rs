//! The entity store: an explicit arena holding the singleton ship, the
//! live bullets and the live asteroids, each entity carrying its own
//! position and velocity. Stage functions read and mutate the store in a
//! fixed per-tick order; spawns and removals requested during a stage are
//! realized before the stage returns.

use vstd::prelude::*;
use crate::asteroid::Asteroid;
use crate::bullet::{bullets_pruned, remove_bullets, Bullet, BULLET_MAX_DISTANCE};
use crate::collision::{
    bullet_collisions_resolved, check_win_condition, detect_asteroid_bullet_collisions,
    detect_asteroid_ship_collisions, lemma_score_per_destroyed, ship_collision,
};
use crate::player::{move_player, player_moved, Player, SHIP_MAX_VELOCITY_SQ};
use crate::position::{
    positions_updated, update_positions, BOUNDS_MAX_X, BOUNDS_MAX_Y, BOUNDS_MIN_X, BOUNDS_MIN_Y,
    Position,
};
use crate::velocity::Velocity;

verus! {

/// Visual scale of every sprite (one world unit, fixed-point); the wrap
/// band offset of all entities, and the hit radius of ship and bullets.
pub const SPRITE_HALF_SCALE: i64 = crate::position::UNIT;

/// Bound on each velocity component of any live entity, fixed-point.
pub const VEL_AXIS_LIMIT: i64 = 16_000;

/// The logical actions read from the input source each tick. The held
/// flags are level-triggered; `fire` reports the rising edge of the fire
/// key, true only on the tick the key goes down.
#[derive(Clone, Copy, PartialEq, Eq, Structural, Debug)]
pub struct InputState {
    /// Rotate counterclockwise while held.
    pub left: bool,
    /// Rotate clockwise while held.
    pub right: bool,
    /// Accelerate along the facing direction while held.
    pub thrust: bool,
    /// Fire one bullet (rising edge).
    pub fire: bool,
}

impl InputState {
    /// No action taken.
    pub fn none() -> (r: InputState)
        ensures
            r == (InputState { left: false, right: false, thrust: false, fire: false }),
    {
        InputState { left: false, right: false, thrust: false, fire: false }
    }
}

/// The live ship with its attached components.
#[derive(Clone, Copy, PartialEq, Eq, Structural, Debug)]
pub struct ShipEntity {
    pub player: Player,
    pub pos: Position,
    pub vel: Velocity,
}

/// A live bullet with its attached components.
#[derive(Clone, Copy, PartialEq, Eq, Structural, Debug)]
pub struct BulletEntity {
    pub bullet: Bullet,
    pub pos: Position,
    pub vel: Velocity,
}

/// A live asteroid with its attached components.
#[derive(Clone, Copy, PartialEq, Eq, Structural, Debug)]
pub struct AsteroidEntity {
    pub asteroid: Asteroid,
    pub pos: Position,
    pub vel: Velocity,
}

/// A position inside the wrap band of the arena.
pub open spec fn pos_in_band(p: Position) -> bool {
    &&& BOUNDS_MIN_X - SPRITE_HALF_SCALE <= p.x <= BOUNDS_MAX_X + SPRITE_HALF_SCALE
    &&& BOUNDS_MIN_Y - SPRITE_HALF_SCALE <= p.y <= BOUNDS_MAX_Y + SPRITE_HALF_SCALE
}

/// Componentwise velocity bound shared by all entities.
pub open spec fn vel_in_range(v: Velocity) -> bool {
    &&& -VEL_AXIS_LIMIT <= v.x <= VEL_AXIS_LIMIT
    &&& -VEL_AXIS_LIMIT <= v.y <= VEL_AXIS_LIMIT
}

impl ShipEntity {
    /// Well-formed ship: inside the arena band, under the speed ceiling,
    /// heading a valid step.
    pub open spec fn wf(self) -> bool {
        &&& pos_in_band(self.pos)
        &&& vel_in_range(self.vel)
        &&& self.vel.norm_sq() <= SHIP_MAX_VELOCITY_SQ
        &&& self.player.heading_step < 72
    }
}

impl BulletEntity {
    /// Well-formed bullet: positions inside the band, travel distance
    /// not yet past the limit.
    pub open spec fn wf(self) -> bool {
        &&& pos_in_band(self.pos)
        &&& pos_in_band(self.bullet.prev_pos)
        &&& 0 <= self.bullet.dst_traveled <= BULLET_MAX_DISTANCE
        &&& vel_in_range(self.vel)
    }
}

impl AsteroidEntity {
    /// Well-formed asteroid: inside the band, drifting at bounded speed.
    pub open spec fn wf(self) -> bool {
        &&& pos_in_band(self.pos)
        &&& vel_in_range(self.vel)
    }
}

/// The shared entity store a tick runs over.
#[derive(Debug)]
pub struct World {
    /// The singleton player ship, absent between rounds.
    pub ship: Option<ShipEntity>,
    pub bullets: Vec<BulletEntity>,
    pub asteroids: Vec<AsteroidEntity>,
}

impl World {
    /// Every live entity is well-formed.
    pub open spec fn wf(self) -> bool {
        &&& (self.ship is Some ==> self.ship->Some_0.wf())
        &&& (forall|i: int| 0 <= i < self.bullets@.len() ==> self.bullets@[i].wf())
        &&& (forall|i: int| 0 <= i < self.asteroids@.len() ==> self.asteroids@[i].wf())
    }

    /// An empty store: no round running.
    pub fn new() -> (w: World)
        ensures
            w.wf(),
            w.ship is None,
            w.bullets@.len() == 0,
            w.asteroids@.len() == 0,
    {
        World { ship: None, bullets: Vec::new(), asteroids: Vec::new() }
    }

    /// Current score, 0 with no live ship; read-only for the display.
    pub fn score(&self) -> (r: u64)
        ensures
            r == if self.ship is Some {
                self.ship->Some_0.player.score
            } else {
                0
            },
    {
        match &self.ship {
            Some(s) => s.player.score,
            None => 0,
        }
    }
}

/// What one tick reports to the host: cue and transition events. The
/// host maps the cues to sounds and, on `ship_destroyed` or `victory`,
/// leaves active play and clears the store.
#[derive(Clone, Copy, PartialEq, Eq, Structural, Debug)]
pub struct TickEvents {
    /// A bullet was fired this tick.
    pub bullet_fired: bool,
    /// How many asteroids bullets destroyed this tick; the score rose by
    /// exactly this much.
    pub asteroids_destroyed: u64,
    /// An asteroid overlapped the ship: the round is lost.
    pub ship_destroyed: bool,
    /// A live ship cleared the last asteroid: the round is won.
    pub victory: bool,
}

/// One fixed-rate simulation tick, its stages in order: position
/// integration, ship control, bullet lifecycle, the ship-asteroid check,
/// the bullet-asteroid scan, then the victory check. All stages run to
/// completion each tick; the transitions the events request are the
/// host's to make.
pub fn tick(w: &mut World, input: &InputState) -> (ev: TickEvents)
    requires
        old(w).wf(),
        old(w).ship is Some ==> old(w).ship->Some_0.player.score + old(w).asteroids@.len()
            <= u64::MAX,
    ensures
        final(w).wf(),
        exists|w1: World, w2: World, w3: World|
            #![trigger positions_updated(*old(w), w1),
                player_moved(w1, w2, *input),
                bullets_pruned(w2, w3)]
        {
            &&& positions_updated(*old(w), w1)
            &&& player_moved(w1, w2, *input)
            &&& bullets_pruned(w2, w3)
            &&& ev.ship_destroyed == ship_collision(w3)
            &&& bullet_collisions_resolved(w3, *final(w))
        },
        ev.bullet_fired == (old(w).ship is Some && input.fire),
        ev.victory == (final(w).ship is Some && final(w).asteroids@.len() == 0),
        final(w).ship is Some <==> old(w).ship is Some,
        old(w).ship is Some ==> final(w).ship->Some_0.player.score == old(
            w,
        ).ship->Some_0.player.score + ev.asteroids_destroyed,
        old(w).ship is None ==> ev.asteroids_destroyed == 0,
{
    let fired: bool = w.ship.is_some() && input.fire;
    update_positions(w);
    let ghost w1 = *w;
    move_player(w, input);
    let ghost w2 = *w;
    remove_bullets(w);
    let ghost w3 = *w;
    let hit: bool = detect_asteroid_ship_collisions(w);
    let score_before: u64 = w.score();
    proof {
        lemma_score_per_destroyed(w3.bullets@, w3.asteroids@);
    }
    detect_asteroid_bullet_collisions(w);
    let score_after: u64 = w.score();
    let destroyed: u64 = score_after - score_before;
    let won: bool = check_win_condition(w);
    proof {
        assert(positions_updated(*old(w), w1) && player_moved(w1, w2, *input) && bullets_pruned(
            w2,
            w3,
        ));
    }
    TickEvents { bullet_fired: fired, asteroids_destroyed: destroyed, ship_destroyed: hit, victory: won }
}

} // verus!
