//! Rejection samplers for points of the unit ball and the unit disk.
//!
//! A coordinate is held as an integer `c` that stands for `c / UNIT`, so a
//! sample never leaves the exact lattice on which uniform draws in `[-1, 1)`
//! are made.
use rand::rngs::StdRng;
use rand::Rng;
use vstd::prelude::*;

verus! {

/// rand's standard seedable generator, carried through as an opaque value.
#[verifier::external_type_specification]
#[verifier::external_body]
pub struct ExStdRng(StdRng);

/// Lattice steps per unit length (2^22).
pub const UNIT: i32 = 4194304;

/// How many candidates a sampler draws before it settles for the centre.
/// Each candidate is accepted with probability above 0.47, so the centre is
/// reached with probability below 2^-1000.
pub const MAX_DRAWS: u32 = 1024;

/// `c` lies in the half-open lattice interval `[-UNIT, UNIT)`.
pub open spec fn in_cube(c: int) -> bool {
    -(UNIT as int) <= c < UNIT as int
}

/// A point strictly inside the unit ball, in lattice coordinates.
#[derive(Clone, Copy, Debug, PartialEq, Eq, Structural)]
pub struct BallPoint {
    pub x: i32,
    pub y: i32,
    pub z: i32,
}

/// A point strictly inside the unit disk, in lattice coordinates.
#[derive(Clone, Copy, Debug, PartialEq, Eq, Structural)]
pub struct DiskPoint {
    pub x: i32,
    pub y: i32,
}

/// `(x, y, z) / UNIT` lies in the draw cube and strictly inside the unit ball.
pub open spec fn inside_ball(x: int, y: int, z: int) -> bool {
    &&& in_cube(x)
    &&& in_cube(y)
    &&& in_cube(z)
    &&& x * x + y * y + z * z < (UNIT as int) * (UNIT as int)
}

/// `(x, y) / UNIT` lies in the draw square and strictly inside the unit disk.
pub open spec fn inside_disk(x: int, y: int) -> bool {
    &&& in_cube(x)
    &&& in_cube(y)
    &&& x * x + y * y < (UNIT as int) * (UNIT as int)
}

impl BallPoint {
    pub open spec fn wf(&self) -> bool {
        inside_ball(self.x as int, self.y as int, self.z as int)
    }
}

impl DiskPoint {
    pub open spec fn wf(&self) -> bool {
        inside_disk(self.x as int, self.y as int)
    }
}

proof fn lemma_square_bound(c: int)
    requires
        in_cube(c),
    ensures
        0 <= c * c <= (UNIT as int) * (UNIT as int),
{
    assert(0 <= c * c <= 4194304 * 4194304) by (nonlinear_arith)
        requires
            -4194304 <= c <= 4194304,
    ;
}

/// The square of a lattice coordinate that lies in the cube.
fn square(c: i32) -> (r: i64)
    requires
        in_cube(c as int),
    ensures
        r == (c as int) * (c as int),
        0 <= r <= (UNIT as int) * (UNIT as int),
{
    proof {
        lemma_square_bound(c as int);
    }
    (c as i64) * (c as i64)
}

/// The rejection test of the ball sampler: the candidate becomes a sample
/// exactly when it lies in the draw cube and strictly inside the unit ball.
pub fn ball_candidate(x: i32, y: i32, z: i32) -> (r: Option<BallPoint>)
    ensures
        inside_ball(x as int, y as int, z as int) ==> r == Some(BallPoint { x, y, z }),
        !inside_ball(x as int, y as int, z as int) ==> r is None,
{
    if x < -UNIT || x >= UNIT || y < -UNIT || y >= UNIT || z < -UNIT || z >= UNIT {
        return None;
    }
    let sum = square(x) + square(y) + square(z);
    if sum < (UNIT as i64) * (UNIT as i64) {
        Some(BallPoint { x, y, z })
    } else {
        None
    }
}

/// The rejection test of the disk sampler: the candidate becomes a sample
/// exactly when it lies in the draw square and strictly inside the unit disk.
pub fn disk_candidate(x: i32, y: i32) -> (r: Option<DiskPoint>)
    ensures
        inside_disk(x as int, y as int) ==> r == Some(DiskPoint { x, y }),
        !inside_disk(x as int, y as int) ==> r is None,
{
    if x < -UNIT || x >= UNIT || y < -UNIT || y >= UNIT {
        return None;
    }
    let sum = square(x) + square(y);
    if sum < (UNIT as i64) * (UNIT as i64) {
        Some(DiskPoint { x, y })
    } else {
        None
    }
}

/// Relies on rand's `Rng::gen_range` over an integer range `lo..hi`: the value
/// lies in `[lo, hi)`. It panics on an empty range, which `requires` excludes.
#[verifier::external_body]
fn gen_range_i32(rng: &mut StdRng, lo: i32, hi: i32) -> (r: i32)
    requires
        lo < hi,
    ensures
        lo <= r < hi,
{
    rng.gen_range(lo..hi)
}

/// One lattice coordinate drawn uniformly from `[-UNIT, UNIT)`.
fn draw_coordinate(rng: &mut StdRng) -> (r: i32)
    ensures
        in_cube(r as int),
{
    gen_range_i32(rng, -UNIT, UNIT)
}

/// A point drawn uniformly from the unit ball by rejection: candidates are
/// drawn uniformly from the cube `[-1, 1)^3` until one lies strictly inside,
/// or, after `MAX_DRAWS` rejections, the centre.
pub fn random_in_unit_sphere(rng: &mut StdRng) -> (r: BallPoint)
    ensures
        r.wf(),
{
    let mut draws: u32 = 0;
    while draws < MAX_DRAWS
        decreases MAX_DRAWS - draws,
    {
        let x = draw_coordinate(rng);
        let y = draw_coordinate(rng);
        let z = draw_coordinate(rng);
        if let Some(p) = ball_candidate(x, y, z) {
            return p;
        }
        draws = draws + 1;
    }
    BallPoint { x: 0, y: 0, z: 0 }
}

/// A point drawn uniformly from the unit disk by rejection: candidates are
/// drawn uniformly from the square `[-1, 1)^2` until one lies strictly inside,
/// or, after `MAX_DRAWS` rejections, the centre.
pub fn random_in_unit_disk(rng: &mut StdRng) -> (r: DiskPoint)
    ensures
        r.wf(),
{
    let mut draws: u32 = 0;
    while draws < MAX_DRAWS
        decreases MAX_DRAWS - draws,
    {
        let x = draw_coordinate(rng);
        let y = draw_coordinate(rng);
        if let Some(p) = disk_candidate(x, y) {
            return p;
        }
        draws = draws + 1;
    }
    DiskPoint { x: 0, y: 0 }
}

} // verus!
