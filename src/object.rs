//! Bodies as the renderer sees them: a centre in world sub-units and their
//! dimensions.
use crate::geometry::Point;
use vstd::prelude::*;

verus! {

/// Density of every body the user adds, in thousandths.
pub const DENSITY_PER_MILLE: u32 = 1_000;

/// Friction of every body, the ground included, in thousandths.
pub const FRICTION_PER_MILLE: u32 = 300;

/// Restitution of every body, the ground included, in thousandths.
pub const RESTITUTION_PER_MILLE: u32 = 600;

/// Downward gravity, in world sub-units per second squared.
pub const GRAVITY: i64 = 30_000_000;

/// Physics steps per simulated second: each step advances the world by
/// the same fixed time, whatever the frame rate.
pub const STEPS_PER_SECOND: u32 = 60;

#[derive(Clone, Copy, PartialEq, Eq, Structural, Debug)]
pub struct Ball {
    pub center: Point,
    pub radius: i64,
}

impl Ball {
    pub fn new(center: Point, radius: i64) -> (r: Ball)
        ensures
            r.center == center,
            r.radius == radius,
    {
        Ball { center, radius }
    }
}

/// A box, by its half-extents.
#[derive(Clone, Copy, PartialEq, Eq, Structural, Debug)]
pub struct Cuboid {
    pub center: Point,
    pub width: i64,
    pub height: i64,
}

impl Cuboid {
    pub fn new(center: Point, width: i64, height: i64) -> (r: Cuboid)
        ensures
            r.center == center,
            r.width == width,
            r.height == height,
    {
        Cuboid { center, width, height }
    }
}

} // verus!
