//! Per-tick displacement attached to every movable entity.

use vstd::prelude::*;

verus! {

/// A 2D velocity in fixed-point world coordinates (1000 units per world
/// unit), added to the owning entity's position once per tick.
#[derive(Clone, Copy, PartialEq, Eq, Structural, Debug)]
pub struct Velocity {
    pub x: i64,
    pub y: i64,
}

impl Velocity {
    /// Squared magnitude, the quantity every speed bound in the
    /// simulation is stated over.
    pub open spec fn norm_sq(self) -> int {
        self.x * self.x + self.y * self.y
    }

    pub open spec fn zero_spec() -> Velocity {
        Velocity { x: 0, y: 0 }
    }

    pub fn zero() -> (v: Velocity)
        ensures
            v == Velocity::zero_spec(),
    {
        Velocity { x: 0, y: 0 }
    }
}

} // verus!
