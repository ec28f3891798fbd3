//! The tunable constants of the simulation, gathered in one record.
use vstd::prelude::*;
use crate::geometry::MAX_WRAP_BOUND;

verus! {

/// Tunable constants. Lengths are in fixed-point units of the logical
/// coordinate space, speeds per second; angles are in 2^-32 of a full turn.
#[derive(Clone, Copy, Debug, PartialEq, Eq, Structural)]
pub struct Config {
    /// Distance travelled per second along the heading.
    pub speed: u32,
    /// Turn per second at full axis deflection, in 2^-32 turns.
    pub rotation_speed: u32,
    /// Half the side of the torus: coordinates live in `[-wrap_bound, wrap_bound)`.
    pub wrap_bound: i64,
    /// Half the side of an entity's square, as a fraction of the viewport scale.
    pub entity_radius: u32,
}

/// 0.4 units per second.
pub const DEFAULT_SPEED: u32 = 400_000;
/// 1.5 radians per second, as 1.5 * 2^32 / (2 * pi) rounded.
pub const DEFAULT_ROTATION_SPEED: u32 = 1_025_347_913;
/// 1.05 units.
pub const DEFAULT_WRAP_BOUND: i64 = 1_050_000;
/// 0.1 of the viewport scale.
pub const DEFAULT_ENTITY_RADIUS: u32 = 100_000;

impl Config {
    /// The wrap bound is positive and small enough to double inside `i64`.
    pub open spec fn wf(&self) -> bool {
        0 < self.wrap_bound <= MAX_WRAP_BOUND
    }

    /// The constants of the controller-driven game.
    pub fn controller() -> (c: Config)
        ensures
            c.wf(),
            c.speed == DEFAULT_SPEED,
            c.rotation_speed == DEFAULT_ROTATION_SPEED,
            c.wrap_bound == DEFAULT_WRAP_BOUND,
            c.entity_radius == DEFAULT_ENTITY_RADIUS,
    {
        Config {
            speed: DEFAULT_SPEED,
            rotation_speed: DEFAULT_ROTATION_SPEED,
            wrap_bound: DEFAULT_WRAP_BOUND,
            entity_radius: DEFAULT_ENTITY_RADIUS,
        }
    }
}

} // verus!
