//! The inverse point locator: from an atlas coordinate back to a point on
//! the unit sphere, with its normal and tangent.
//!
//! The owning face is the one whose anchor center is nearest (a
//! classification, not a hit-test, so coordinates near shared boundaries
//! may classify to either side).  The face's affine atlas placement is then
//! undone, and the third axis is reconstructed from the unit-sphere
//! constraint `w = sqrt(1 - u² - v²)`; a negative radicand means the query
//! lies outside the region the face's inscribed circle covers, and there is
//! no surface point.

use vstd::prelude::*;
use crate::face::CubeFace;
use crate::face::anchor_x_spec;
use crate::face::anchor_y_spec;
use crate::face::face_to_uv_coordinate;
use crate::face::flips_u;
use crate::face::flips_u_spec;
use crate::face::flips_v;
use crate::face::flips_v_spec;
use crate::face::UV_SPHERE_RADIUS;
use crate::fixed::FIXED_ONE;
use crate::fixed::fx_mul;
use crate::fixed::fx_sq_spec;
use crate::fixed::isqrt;
use crate::fixed::lemma_mul_le;
use crate::fixed::lemma_sq_le;
use crate::fixed::lemma_tdiv_range;
use crate::mesh::v3;
use crate::mesh::v4;
use crate::sphere::CubeSphere;
use crate::warp::fx_sqrt_spec;
use crate::warp::tangent_spec;
use crate::warp::unit_sphere_point_to_normal;
use crate::warp::unit_sphere_point_to_tangent;

verus! {

/// Largest accepted magnitude of an inverse-query coordinate (the real
/// value 100.0), so that squared distances stay far inside the `i64`
/// range.  Coordinates outside the unit square are meaningful to evaluate
/// but lie outside the atlas.
pub const MAX_ATLAS_QUERY: i64 = 1_000_000_000;

/// Squared distance from a query coordinate to the center of a face's
/// atlas square, in emitted atlas coordinates (the vertical axis of the
/// atlas grows downward, so the center's second coordinate is measured
/// from 1, as the forward packing emits it).
pub open spec fn anchor_dist2_spec(f: CubeFace, u: int, v: int) -> int {
    let cx = anchor_x_spec(f) + UV_SPHERE_RADIUS;
    let cy = FIXED_ONE - (anchor_y_spec(f) + UV_SPHERE_RADIUS);
    (u - cx) * (u - cx) + (v - cy) * (v - cy)
}

/// The face owning an atlas coordinate: the first face, in the fixed
/// order, whose anchor center is nearest.
pub open spec fn uv_face_spec(u: int, v: int) -> CubeFace {
    let b1 = if anchor_dist2_spec(CubeFace::Back, u, v)
        < anchor_dist2_spec(CubeFace::Front, u, v) { CubeFace::Back } else { CubeFace::Front };
    let b2 = if anchor_dist2_spec(CubeFace::Left, u, v)
        < anchor_dist2_spec(b1, u, v) { CubeFace::Left } else { b1 };
    let b3 = if anchor_dist2_spec(CubeFace::Right, u, v)
        < anchor_dist2_spec(b2, u, v) { CubeFace::Right } else { b2 };
    let b4 = if anchor_dist2_spec(CubeFace::Top, u, v)
        < anchor_dist2_spec(b3, u, v) { CubeFace::Top } else { b3 };
    if anchor_dist2_spec(CubeFace::Bottom, u, v)
        < anchor_dist2_spec(b4, u, v) { CubeFace::Bottom } else { b4 }
}

/// The owning face really is nearest: no face's anchor center is strictly
/// closer to the query than the selected one's.
pub proof fn lemma_uv_face_nearest(u: int, v: int)
    ensures
        forall|g: CubeFace|
            anchor_dist2_spec(uv_face_spec(u, v), u, v)
                <= #[trigger] anchor_dist2_spec(g, u, v),
{
}

/// The horizontal face-local coordinate of a query: the anchor removed,
/// the face's mirroring undone, and the circle center subtracted, landing
/// nominally in `[-UV_SPHERE_RADIUS, UV_SPHERE_RADIUS]`.
pub open spec fn local_u_spec(u: int, v: int) -> int {
    let f = uv_face_spec(u, v);
    let su = u - anchor_x_spec(f);
    let su2 = if flips_u_spec(f) { 2 * UV_SPHERE_RADIUS - su } else { su };
    su2 - UV_SPHERE_RADIUS
}

/// The vertical face-local coordinate of a query; the atlas grows
/// downward, so the coordinate is first measured from 1.
pub open spec fn local_v_spec(u: int, v: int) -> int {
    let f = uv_face_spec(u, v);
    let sv = (FIXED_ONE - v) - anchor_y_spec(f);
    let sv2 = if flips_v_spec(f) { 2 * UV_SPHERE_RADIUS - sv } else { sv };
    sv2 - UV_SPHERE_RADIUS
}

/// The radicand `1 - u² - v²` of the unit-sphere constraint at a query's
/// face-local coordinates; negative exactly when the query has no surface
/// point.
pub open spec fn locate_radicand_spec(u: int, v: int) -> int {
    FIXED_ONE - fx_sq_spec(local_u_spec(u, v)) - fx_sq_spec(local_v_spec(u, v))
}

/// Place the face-local coordinates and the reconstructed third axis on
/// the world axes, per the face's axis assignment (the third axis carries
/// the face's outward sign).
pub open spec fn assemble_spec(f: CubeFace, lu: int, lv: int, w: int) -> (int, int, int) {
    match f {
        CubeFace::Front => (lu, lv, w),
        CubeFace::Back => (lu, lv, -w),
        CubeFace::Left => (-w, lv, lu),
        CubeFace::Right => (w, lv, lu),
        CubeFace::Top => (lu, w, lv),
        CubeFace::Bottom => (lu, -w, lv),
    }
}

/// The unit-sphere point an atlas coordinate locates, if any.
pub open spec fn uv_point_spec(u: int, v: int) -> Option<(int, int, int)> {
    let rad = locate_radicand_spec(u, v);
    if rad < 0 {
        Option::None
    } else {
        Option::Some(assemble_spec(
            uv_face_spec(u, v),
            local_u_spec(u, v),
            local_v_spec(u, v),
            fx_sqrt_spec(rad),
        ))
    }
}

/// A value whose fixed-point square is at most one is itself at most one
/// in magnitude.
proof fn lemma_bounded_square(a: int)
    requires
        fx_sq_spec(a) <= FIXED_ONE as int,
    ensures
        -(FIXED_ONE as int) <= a <= FIXED_ONE as int,
{
    let s = FIXED_ONE as int;
    assert(a * a >= 0) by (nonlinear_arith);
    vstd::arithmetic::div_mod::lemma_fundamental_div_mod(a * a, s);
    vstd::arithmetic::div_mod::lemma_mod_division_less_than_divisor(a * a, s);
    assert(a * a <= s * (a * a / s) + s - 1);
    assert(s * (a * a / s) <= s * s) by (nonlinear_arith)
        requires a * a / s <= s, s >= 0;
    if a > s {
        assert(a * a > s * s + s - 1) by (nonlinear_arith)
            requires a >= s + 1, s >= 2;
    }
    if a < -s {
        assert(a * a > s * s + s - 1) by (nonlinear_arith)
            requires a <= -(s + 1), s >= 2;
    }
}

/// Squared distance from a query coordinate to a face's anchor center.
fn anchor_dist2(f: CubeFace, u: i64, v: i64) -> (d: i64)
    requires
        -MAX_ATLAS_QUERY <= u <= MAX_ATLAS_QUERY,
        -MAX_ATLAS_QUERY <= v <= MAX_ATLAS_QUERY,
    ensures
        d == anchor_dist2_spec(f, u as int, v as int),
{
    let coord = face_to_uv_coordinate(f);
    let du: i64 = u - (coord[0] + UV_SPHERE_RADIUS);
    let dv: i64 = v - (FIXED_ONE - (coord[1] + UV_SPHERE_RADIUS));
    proof {
        lemma_mul_le(du as int, du as int, 1_100_000_000, 1_100_000_000);
        lemma_mul_le(dv as int, dv as int, 1_100_000_000, 1_100_000_000);
        assert(du as int * (du as int) >= 0) by (nonlinear_arith);
        assert(dv as int * (dv as int) >= 0) by (nonlinear_arith);
    }
    du * du + dv * dv
}

impl CubeSphere {
    /// Classify an atlas coordinate to the face whose anchor center is
    /// nearest; ties keep the earlier face of the fixed order.
    pub fn uv_to_face(uv: &[i64; 2]) -> (r: CubeFace)
        requires
            -MAX_ATLAS_QUERY <= uv@[0] <= MAX_ATLAS_QUERY,
            -MAX_ATLAS_QUERY <= uv@[1] <= MAX_ATLAS_QUERY,
        ensures
            r == uv_face_spec(uv@[0] as int, uv@[1] as int),
            forall|g: CubeFace|
                anchor_dist2_spec(r, uv@[0] as int, uv@[1] as int)
                    <= #[trigger] anchor_dist2_spec(g, uv@[0] as int, uv@[1] as int),
    {
        let u = uv[0];
        let v = uv[1];
        let mut best = CubeFace::Front;
        let mut best_d = anchor_dist2(CubeFace::Front, u, v);
        let d_back = anchor_dist2(CubeFace::Back, u, v);
        if d_back < best_d {
            best = CubeFace::Back;
            best_d = d_back;
        }
        let d_left = anchor_dist2(CubeFace::Left, u, v);
        if d_left < best_d {
            best = CubeFace::Left;
            best_d = d_left;
        }
        let d_right = anchor_dist2(CubeFace::Right, u, v);
        if d_right < best_d {
            best = CubeFace::Right;
            best_d = d_right;
        }
        let d_top = anchor_dist2(CubeFace::Top, u, v);
        if d_top < best_d {
            best = CubeFace::Top;
            best_d = d_top;
        }
        let d_bottom = anchor_dist2(CubeFace::Bottom, u, v);
        if d_bottom < best_d {
            best = CubeFace::Bottom;
            best_d = d_bottom;
        }
        proof {
            lemma_uv_face_nearest(uv@[0] as int, uv@[1] as int);
        }
        best
    }

    /// Locate the unit-sphere point an atlas coordinate maps to, or `None`
    /// exactly when the reconstructed point would be non-real (negative
    /// radicand).
    pub fn uv_to_point(uv: &[i64; 2]) -> (r: Option<[i64; 3]>)
        requires
            -MAX_ATLAS_QUERY <= uv@[0] <= MAX_ATLAS_QUERY,
            -MAX_ATLAS_QUERY <= uv@[1] <= MAX_ATLAS_QUERY,
        ensures
            r is Some <==> locate_radicand_spec(uv@[0] as int, uv@[1] as int) >= 0,
            r matches Some(p) ==> Option::Some(v3(p))
                == uv_point_spec(uv@[0] as int, uv@[1] as int),
            r matches Some(p) ==> -FIXED_ONE <= p@[0] <= FIXED_ONE
                && -FIXED_ONE <= p@[1] <= FIXED_ONE
                && -FIXED_ONE <= p@[2] <= FIXED_ONE,
    {
        let face = Self::uv_to_face(uv);
        let coord = face_to_uv_coordinate(face);
        let mut su: i64 = uv[0] - coord[0];
        if flips_u(face) {
            su = 2 * UV_SPHERE_RADIUS - su;
        }
        let lu: i64 = su - UV_SPHERE_RADIUS;
        let mut sv: i64 = (FIXED_ONE - uv[1]) - coord[1];
        if flips_v(face) {
            sv = 2 * UV_SPHERE_RADIUS - sv;
        }
        let lv: i64 = sv - UV_SPHERE_RADIUS;
        assert(lu == local_u_spec(uv@[0] as int, uv@[1] as int));
        assert(lv == local_v_spec(uv@[0] as int, uv@[1] as int));
        proof {
            lemma_mul_le(lu as int, lu as int, 1_100_000_000, 1_100_000_000);
            lemma_mul_le(lv as int, lv as int, 1_100_000_000, 1_100_000_000);
            assert(lu as int * (lu as int) >= 0) by (nonlinear_arith);
            assert(lv as int * (lv as int) >= 0) by (nonlinear_arith);
            lemma_tdiv_range(
                lu as int * (lu as int), FIXED_ONE as int,
                1_100_000_000 * 1_100_000_000int);
            lemma_tdiv_range(
                lv as int * (lv as int), FIXED_ONE as int,
                1_100_000_000 * 1_100_000_000int);
        }
        let squ: i64 = fx_mul(lu, lu);
        let sqv: i64 = fx_mul(lv, lv);
        let w2: i64 = FIXED_ONE - squ - sqv;
        if w2 < 0 {
            None
        } else {
            proof {
                lemma_bounded_square(lu as int);
                lemma_bounded_square(lv as int);
                lemma_mul_le(w2 as int, FIXED_ONE as int, FIXED_ONE as int, FIXED_ONE as int);
            }
            let root: u64 = isqrt((w2 * FIXED_ONE) as u64);
            proof {
                lemma_sq_le(root as int, FIXED_ONE as int);
            }
            let w: i64 = root as i64;
            assert(w == fx_sqrt_spec(w2 as int));
            Some(match face {
                CubeFace::Front => [lu, lv, w],
                CubeFace::Back => [lu, lv, -w],
                CubeFace::Left => [-w, lv, lu],
                CubeFace::Right => [w, lv, lu],
                CubeFace::Top => [lu, w, lv],
                CubeFace::Bottom => [lu, -w, lv],
            })
        }
    }

    /// The normal at a located atlas coordinate: the unit-sphere point
    /// itself, or `None` exactly when no point is located.
    pub fn uv_to_normal(uv: &[i64; 2]) -> (r: Option<[i64; 3]>)
        requires
            -MAX_ATLAS_QUERY <= uv@[0] <= MAX_ATLAS_QUERY,
            -MAX_ATLAS_QUERY <= uv@[1] <= MAX_ATLAS_QUERY,
        ensures
            r is Some <==> locate_radicand_spec(uv@[0] as int, uv@[1] as int) >= 0,
            r matches Some(p) ==> Option::Some(v3(p))
                == uv_point_spec(uv@[0] as int, uv@[1] as int),
    {
        match Self::uv_to_point(uv) {
            Some(pt) => Some(unit_sphere_point_to_normal(&pt)),
            None => None,
        }
    }

    /// The tangent frame at a located atlas coordinate, from the owning
    /// face's reference axis, or `None` exactly when no point is located.
    pub fn uv_to_tangent(uv: &[i64; 2]) -> (r: Option<[i64; 4]>)
        requires
            -MAX_ATLAS_QUERY <= uv@[0] <= MAX_ATLAS_QUERY,
            -MAX_ATLAS_QUERY <= uv@[1] <= MAX_ATLAS_QUERY,
        ensures
            r is Some <==> locate_radicand_spec(uv@[0] as int, uv@[1] as int) >= 0,
            r matches Some(t) ==> (uv_point_spec(uv@[0] as int, uv@[1] as int)
                matches Some(q) && v4(t)
                    == tangent_spec(q, uv_face_spec(uv@[0] as int, uv@[1] as int))),
    {
        let face = Self::uv_to_face(uv);
        match Self::uv_to_point(uv) {
            Some(pt) => Some(unit_sphere_point_to_tangent(&pt, face)),
            None => None,
        }
    }
}

} // verus!
