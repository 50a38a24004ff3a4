//! The particle field: a fixed-length array of points with random positions
//! inside the viewport and random velocities.
//!
//! Positions are whole pixels; velocity components are fixed-point integers
//! in millionths of a pixel per frame-second, with magnitude in `[1, 3)`
//! units and a random sign per axis.

use vstd::prelude::*;
use rand::Rng;

verus! {

/// Lowest velocity magnitude, in millionths: one unit.
pub const MIN_SPEED: u64 = 1_000_000;

/// Exclusive upper velocity magnitude, in millionths: three units.
pub const MAX_SPEED: u64 = 3_000_000;

/// One simulated point: a position inside the viewport and a velocity.
#[derive(Clone, Copy, PartialEq, Debug)]
pub struct Particle {
    pub x: u32,
    pub y: u32,
    pub vx: i64,
    pub vy: i64,
}

/// A velocity component's magnitude lies in `[1, 3)` units, either sign.
pub open spec fn valid_velocity(v: i64) -> bool {
    ||| MIN_SPEED <= v < MAX_SPEED
    ||| -(MAX_SPEED as int) < v <= -(MIN_SPEED as int)
}

impl Particle {
    /// The particle lies inside a viewport of the given pixel size and moves
    /// with a valid velocity on each axis.
    pub open spec fn wf(self, width: u32, height: u32) -> bool {
        &&& self.x < width
        &&& self.y < height
        &&& valid_velocity(self.vx)
        &&& valid_velocity(self.vy)
    }
}

/// Relies on `rand::Rng::random_range` over the half-open integer range
/// `0..bound`: returns a uniformly drawn value below `bound`, and panics
/// only on an empty range, which the precondition rules out.
#[verifier::external_body]
fn rand_below(bound: u32) -> (r: u32)
    requires
        bound > 0,
    ensures
        r < bound,
{
    rand::rng().random_range(0..bound)
}

/// One random velocity component: magnitude uniform in `[1, 3)` units,
/// sign drawn separately.
fn random_velocity() -> (v: i64)
    ensures
        valid_velocity(v),
{
    let magnitude: u64 = MIN_SPEED + rand_below((MAX_SPEED - MIN_SPEED) as u32) as u64;
    let negative = rand_below(2) == 1;
    if negative {
        -(magnitude as i64)
    } else {
        magnitude as i64
    }
}

/// Seeds the particle field: `points_count` particles, each uniformly placed
/// inside the `width` by `height` viewport with a fresh random velocity.
pub fn create_points(points_count: usize, width: u32, height: u32) -> (points: Vec<Particle>)
    requires
        width > 0,
        height > 0,
    ensures
        points.len() == points_count,
        forall|i: int| 0 <= i < points.len() ==> #[trigger] points[i].wf(width, height),
{
    let mut points: Vec<Particle> = Vec::new();
    let mut n: usize = 0;
    while n < points_count
        invariant
            n <= points_count,
            points.len() == n,
            width > 0,
            height > 0,
            forall|i: int| 0 <= i < points.len() ==> #[trigger] points[i].wf(width, height),
        decreases points_count - n,
    {
        let x = rand_below(width);
        let y = rand_below(height);
        let vx = random_velocity();
        let vy = random_velocity();
        points.push(Particle { x, y, vx, vy });
        n = n + 1;
    }
    points
}

} // verus!
