//! The cube-sphere configuration: radius and per-face grid resolution.

use vstd::prelude::*;
use crate::fixed::FIXED_ONE;

verus! {

/// Configuration of a cube-sphere mesh: the sphere radius as a fixed-point
/// length and the number of sample points along one edge of one face.
#[derive(Debug, Clone, Copy)]
pub struct CubeSphere {
    /// Sphere radius in fixed-point units (`FIXED_ONE` is the real 1.0).
    pub radius: i64,
    /// Number of vertices per side of each face; valid range is `[2, 103]`.
    pub resolution: usize,
}

impl Default for CubeSphere {
    /// A unit sphere sampled eight times per face edge.
    fn default() -> (c: CubeSphere)
        ensures
            c.radius == FIXED_ONE,
            c.resolution == 8,
    {
        CubeSphere { radius: FIXED_ONE, resolution: 8 }
    }
}

} // verus!
