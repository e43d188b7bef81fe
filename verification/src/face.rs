//! The face geometry model: the six cube faces, their order, their tangent
//! reference axes, their atlas anchors and their atlas mirroring flags.

use vstd::prelude::*;
use crate::fixed::FIXED_ONE;

verus! {

/// One of the six flat grid patches making up the cube surface prior to
/// warping.
#[derive(Debug, Clone, Copy, PartialEq, Eq, Structural)]
pub enum CubeFace {
    Front,
    Back,
    Left,
    Right,
    Top,
    Bottom,
}

/// Radius of one face's circle in the packed atlas: six circles of this
/// radius pack into the unit square, and each face is inscribed in one
/// circle's bounding square.
pub const UV_SPHERE_RADIUS: i64 = 1_876_806;

/// The position of a face in the fixed emission and classification order.
pub open spec fn face_index_spec(f: CubeFace) -> int {
    match f {
        CubeFace::Front => 0,
        CubeFace::Back => 1,
        CubeFace::Left => 2,
        CubeFace::Right => 3,
        CubeFace::Top => 4,
        CubeFace::Bottom => 5,
    }
}

/// The face at a position of the fixed order; inverse of [`face_index_spec`].
pub open spec fn face_of_index(i: int) -> CubeFace {
    if i == 0 {
        CubeFace::Front
    } else if i == 1 {
        CubeFace::Back
    } else if i == 2 {
        CubeFace::Left
    } else if i == 3 {
        CubeFace::Right
    } else if i == 4 {
        CubeFace::Top
    } else {
        CubeFace::Bottom
    }
}

/// The face at a position of the fixed order.
pub fn face_from_index(i: usize) -> (f: CubeFace)
    requires
        i < 6,
    ensures
        f == face_of_index(i as int),
        face_index_spec(f) == i,
{
    if i == 0 {
        CubeFace::Front
    } else if i == 1 {
        CubeFace::Back
    } else if i == 2 {
        CubeFace::Left
    } else if i == 3 {
        CubeFace::Right
    } else if i == 4 {
        CubeFace::Top
    } else {
        CubeFace::Bottom
    }
}

/// Horizontal atlas anchor of a face's bounding square, from the
/// circle-packing solution for six circles in the unit square.
pub open spec fn anchor_x_spec(f: CubeFace) -> int {
    match f {
        CubeFace::Front => 0,
        CubeFace::Back => 0,
        CubeFace::Left => 3_123_194,
        CubeFace::Right => 3_123_194,
        CubeFace::Top => 6_246_388,
        CubeFace::Bottom => 6_246_388,
    }
}

/// Vertical atlas anchor of a face's bounding square.
pub open spec fn anchor_y_spec(f: CubeFace) -> int {
    match f {
        CubeFace::Front => 0,
        CubeFace::Back => 4_164_259,
        CubeFace::Left => 2_082_129,
        CubeFace::Right => 6_246_388,
        CubeFace::Top => 0,
        CubeFace::Bottom => 4_164_259,
    }
}

/// Every anchor leaves the face's whole bounding square (side
/// `2 * UV_SPHERE_RADIUS`) inside the unit atlas.
pub proof fn lemma_anchor_in_atlas(f: CubeFace)
    ensures
        0 <= anchor_x_spec(f) <= FIXED_ONE - 2 * UV_SPHERE_RADIUS,
        0 <= anchor_y_spec(f) <= FIXED_ONE - 2 * UV_SPHERE_RADIUS,
{
}

/// Atlas anchor of a face, as a fixed-point coordinate pair.
pub fn face_to_uv_coordinate(f: CubeFace) -> (c: [i64; 2])
    ensures
        c@[0] == anchor_x_spec(f),
        c@[1] == anchor_y_spec(f),
{
    match f {
        CubeFace::Front => [0, 0],
        CubeFace::Back => [0, 4_164_259],
        CubeFace::Left => [3_123_194, 2_082_129],
        CubeFace::Right => [3_123_194, 6_246_388],
        CubeFace::Top => [6_246_388, 0],
        CubeFace::Bottom => [6_246_388, 4_164_259],
    }
}

/// Whether the face mirrors its horizontal atlas coordinate, to keep
/// adjacent-face texture detail visually contiguous.
pub open spec fn flips_u_spec(f: CubeFace) -> bool {
    match f {
        CubeFace::Back => true,
        CubeFace::Right => true,
        _ => false,
    }
}

/// Whether the face mirrors its vertical atlas coordinate.
pub open spec fn flips_v_spec(f: CubeFace) -> bool {
    match f {
        CubeFace::Top => true,
        _ => false,
    }
}

/// Whether the face mirrors its horizontal atlas coordinate.
pub fn flips_u(f: CubeFace) -> (r: bool)
    ensures
        r == flips_u_spec(f),
{
    match f {
        CubeFace::Back => true,
        CubeFace::Right => true,
        _ => false,
    }
}

/// Whether the face mirrors its vertical atlas coordinate.
pub fn flips_v(f: CubeFace) -> (r: bool)
    ensures
        r == flips_v_spec(f),
{
    match f {
        CubeFace::Top => true,
        _ => false,
    }
}

/// The reference "up-like" axis a face derives its tangent frame from:
/// world Y for the four side faces, world Z for Top and Bottom (Y is
/// degenerate as a tangent reference exactly where it is the normal).
pub open spec fn tangent_ref_spec(f: CubeFace) -> (int, int, int) {
    match f {
        CubeFace::Top => (0, 0, FIXED_ONE as int),
        CubeFace::Bottom => (0, 0, FIXED_ONE as int),
        _ => (0, FIXED_ONE as int, 0),
    }
}

/// The tangent reference axis, as a fixed-point vector.
pub fn tangent_reference(f: CubeFace) -> (r: [i64; 3])
    ensures
        (r@[0] as int, r@[1] as int, r@[2] as int) == tangent_ref_spec(f),
{
    match f {
        CubeFace::Top => [0, 0, FIXED_ONE],
        CubeFace::Bottom => [0, 0, FIXED_ONE],
        _ => [0, FIXED_ONE, 0],
    }
}

} // verus!
