//! The forward UV atlas packing: each face owns the bounding square of one
//! circle of a six-circles-in-a-square packing, and a vertex's atlas
//! coordinate is an affine placement (optionally mirrored) of two of its
//! sphere-point components inside that square.

use vstd::prelude::*;
use crate::face::CubeFace;
use crate::face::anchor_x_spec;
use crate::face::anchor_y_spec;
use crate::face::face_to_uv_coordinate;
use crate::face::flips_u;
use crate::face::flips_u_spec;
use crate::face::flips_v;
use crate::face::flips_v_spec;
use crate::face::lemma_anchor_in_atlas;
use crate::face::UV_SPHERE_RADIUS;
use crate::fixed::FIXED_ONE;
use crate::fixed::div_trunc;
use crate::fixed::lemma_tdiv_range;
use crate::fixed::tdiv;
use crate::sphere::CubeSphere;

verus! {

/// Map a coordinate in `[-1, 1]` into a face's atlas square:
/// `(i + 1) * UV_SPHERE_RADIUS`, landing in `[0, 2 * UV_SPHERE_RADIUS]`.
pub open spec fn scale_uv_spec(i: int) -> int {
    tdiv((i + FIXED_ONE) * UV_SPHERE_RADIUS, FIXED_ONE as int)
}

/// Mirror a coordinate inside a face's atlas square.
pub open spec fn flip_uv_spec(i: int) -> int {
    2 * UV_SPHERE_RADIUS - i
}

/// The sphere-point component a face places horizontally in the atlas.
pub open spec fn uv_u_source(f: CubeFace, p: (int, int, int)) -> int {
    match f {
        CubeFace::Left => p.2,
        CubeFace::Right => p.2,
        _ => p.0,
    }
}

/// The sphere-point component a face places vertically in the atlas.
pub open spec fn uv_v_source(f: CubeFace, p: (int, int, int)) -> int {
    match f {
        CubeFace::Top => p.2,
        CubeFace::Bottom => p.2,
        _ => p.1,
    }
}

/// The atlas coordinate of a unit-sphere point on a face: the face's two
/// source components scaled into its atlas square, mirrored where the face
/// asks for it, offset by the face's anchor; vertically the atlas grows
/// downward, so the second coordinate is measured from 1.
pub open spec fn uv_spec(p: (int, int, int), f: CubeFace) -> (int, int) {
    let su0 = scale_uv_spec(uv_u_source(f, p));
    let su = if flips_u_spec(f) { flip_uv_spec(su0) } else { su0 };
    let sv0 = scale_uv_spec(uv_v_source(f, p));
    let sv = if flips_v_spec(f) { flip_uv_spec(sv0) } else { sv0 };
    (anchor_x_spec(f) + su, FIXED_ONE - (anchor_y_spec(f) + sv))
}

/// Scaling a coordinate of `[-1, 1]` lands inside the face's atlas square.
pub proof fn lemma_scale_uv_range(i: int)
    requires
        -(FIXED_ONE as int) <= i <= FIXED_ONE as int,
    ensures
        0 <= scale_uv_spec(i) <= 2 * UV_SPHERE_RADIUS,
{
    assert(0 <= (i + FIXED_ONE) * UV_SPHERE_RADIUS <= 2 * FIXED_ONE * UV_SPHERE_RADIUS)
        by (nonlinear_arith)
        requires 0 <= i + FIXED_ONE <= 2 * FIXED_ONE;
    lemma_tdiv_range(
        (i + FIXED_ONE) * UV_SPHERE_RADIUS,
        FIXED_ONE as int,
        2 * FIXED_ONE * UV_SPHERE_RADIUS,
    );
}

/// Atlas coordinates of unit-sphere points lie inside the unit square.
pub proof fn lemma_uv_in_atlas(p: (int, int, int), f: CubeFace)
    requires
        -(FIXED_ONE as int) <= p.0 <= FIXED_ONE as int,
        -(FIXED_ONE as int) <= p.1 <= FIXED_ONE as int,
        -(FIXED_ONE as int) <= p.2 <= FIXED_ONE as int,
    ensures
        0 <= uv_spec(p, f).0 <= FIXED_ONE as int,
        0 <= uv_spec(p, f).1 <= FIXED_ONE as int,
{
    lemma_anchor_in_atlas(f);
    lemma_scale_uv_range(uv_u_source(f, p));
    lemma_scale_uv_range(uv_v_source(f, p));
}

/// Scale a coordinate into a face's atlas square.
fn scale_uv(i: i64) -> (r: i64)
    requires
        -FIXED_ONE <= i <= FIXED_ONE,
    ensures
        r == scale_uv_spec(i as int),
        0 <= r <= 2 * UV_SPHERE_RADIUS,
{
    proof {
        lemma_scale_uv_range(i as int);
    }
    div_trunc((i + FIXED_ONE) * UV_SPHERE_RADIUS, FIXED_ONE)
}

/// Mirror a coordinate inside a face's atlas square.
fn flip_uv(i: i64) -> (r: i64)
    requires
        0 <= i <= 2 * UV_SPHERE_RADIUS,
    ensures
        r == flip_uv_spec(i as int),
        0 <= r <= 2 * UV_SPHERE_RADIUS,
{
    2 * UV_SPHERE_RADIUS - i
}

/// The atlas coordinate of a unit-sphere point on a face.
pub fn unit_sphere_point_to_uv(pt: &[i64; 3], f: CubeFace) -> (uv: [i64; 2])
    requires
        -FIXED_ONE <= pt@[0] <= FIXED_ONE,
        -FIXED_ONE <= pt@[1] <= FIXED_ONE,
        -FIXED_ONE <= pt@[2] <= FIXED_ONE,
    ensures
        (uv@[0] as int, uv@[1] as int)
            == uv_spec((pt@[0] as int, pt@[1] as int, pt@[2] as int), f),
        0 <= uv@[0] <= FIXED_ONE,
        0 <= uv@[1] <= FIXED_ONE,
{
    proof {
        lemma_uv_in_atlas((pt@[0] as int, pt@[1] as int, pt@[2] as int), f);
        lemma_anchor_in_atlas(f);
    }
    let u_src = match f {
        CubeFace::Left => pt[2],
        CubeFace::Right => pt[2],
        _ => pt[0],
    };
    let v_src = match f {
        CubeFace::Top => pt[2],
        CubeFace::Bottom => pt[2],
        _ => pt[1],
    };
    let mut su = scale_uv(u_src);
    if flips_u(f) {
        su = flip_uv(su);
    }
    let mut sv = scale_uv(v_src);
    if flips_v(f) {
        sv = flip_uv(sv);
    }
    let coord = face_to_uv_coordinate(f);
    [coord[0] + su, FIXED_ONE - (coord[1] + sv)]
}

/// The face whose atlas square receives a point with the given X component:
/// the eastern face for positive X, the western one otherwise.
pub open spec fn x_face_spec(x: int) -> CubeFace {
    if x > 0 {
        CubeFace::Right
    } else {
        CubeFace::Left
    }
}

/// The face owning a point by the sign of its Y component.
pub open spec fn y_face_spec(y: int) -> CubeFace {
    if y > 0 {
        CubeFace::Top
    } else {
        CubeFace::Bottom
    }
}

/// The face owning a point by the sign of its Z component.
pub open spec fn z_face_spec(z: int) -> CubeFace {
    if z > 0 {
        CubeFace::Front
    } else {
        CubeFace::Back
    }
}

impl CubeSphere {
    /// All three atlas placements of a unit-sphere point: one per axis, on
    /// the face selected by the sign of that axis's component.
    pub fn point_to_uvs(pt: &[i64; 3]) -> (rows: [[i64; 2]; 3])
        requires
            -FIXED_ONE <= pt@[0] <= FIXED_ONE,
            -FIXED_ONE <= pt@[1] <= FIXED_ONE,
            -FIXED_ONE <= pt@[2] <= FIXED_ONE,
        ensures
            (rows@[0]@[0] as int, rows@[0]@[1] as int)
                == uv_spec((pt@[0] as int, pt@[1] as int, pt@[2] as int), x_face_spec(pt@[0] as int)),
            (rows@[1]@[0] as int, rows@[1]@[1] as int)
                == uv_spec((pt@[0] as int, pt@[1] as int, pt@[2] as int), y_face_spec(pt@[1] as int)),
            (rows@[2]@[0] as int, rows@[2]@[1] as int)
                == uv_spec((pt@[0] as int, pt@[1] as int, pt@[2] as int), z_face_spec(pt@[2] as int)),
    {
        let face_x = if pt[0] > 0 {
            unit_sphere_point_to_uv(pt, CubeFace::Right)
        } else {
            unit_sphere_point_to_uv(pt, CubeFace::Left)
        };
        let face_y = if pt[1] > 0 {
            unit_sphere_point_to_uv(pt, CubeFace::Top)
        } else {
            unit_sphere_point_to_uv(pt, CubeFace::Bottom)
        };
        let face_z = if pt[2] > 0 {
            unit_sphere_point_to_uv(pt, CubeFace::Front)
        } else {
            unit_sphere_point_to_uv(pt, CubeFace::Back)
        };
        [face_x, face_y, face_z]
    }
}

} // verus!
