//! The cube-to-sphere warp and the per-vertex attributes derived from it:
//! unit normal, scaled position and tangent frame.
//!
//! Per axis the warp sends a cube-surface point `(x, y, z)` to
//! `x * sqrt(1 - y²/2 - z²/2 + y²z²/3)` (and cyclically), which lands
//! exactly on the unit sphere whenever one coordinate is ±1; see
//! [`lemma_warp_exact_unit_norm`].

use vstd::prelude::*;
use crate::face::CubeFace;
use crate::face::tangent_ref_spec;
use crate::face::tangent_reference;
use crate::fixed::FIXED_ONE;
use crate::fixed::MAX_RADIUS;
use crate::fixed::div_trunc;
use crate::fixed::fx_mul;
use crate::fixed::fx_mul_spec;
use crate::fixed::fx_sq_spec;
use crate::fixed::isqrt;
use crate::fixed::isqrt_spec;
use crate::fixed::lemma_mul_le;
use crate::fixed::lemma_sq_le;
use crate::fixed::lemma_tdiv_range;
use crate::fixed::tdiv;

verus! {

/// The radicand `1 - a²/2 - b²/2 + a²b²/3` of one warp component, over the
/// fixed-point squares `a2` and `b2` of the two other coordinates.
pub open spec fn radicand_spec(a2: int, b2: int) -> int {
    FIXED_ONE - tdiv(a2, 2) - tdiv(b2, 2) + tdiv(fx_mul_spec(a2, b2), 3)
}

/// Fixed-point square root: the integer square root of the value raised to
/// squared scale.
pub open spec fn fx_sqrt_spec(r: int) -> int {
    isqrt_spec((r * FIXED_ONE) as nat) as int
}

/// One component of the warp: the coordinate times the square root of its
/// radicand.
pub open spec fn warp_component_spec(c: int, a2: int, b2: int) -> int {
    tdiv(c * fx_sqrt_spec(radicand_spec(a2, b2)), FIXED_ONE as int)
}

/// The whole warp, sending a cube-surface point to the unit sphere.
pub open spec fn warp_point_spec(p: (int, int, int)) -> (int, int, int) {
    let x2 = fx_sq_spec(p.0);
    let y2 = fx_sq_spec(p.1);
    let z2 = fx_sq_spec(p.2);
    (
        warp_component_spec(p.0, y2, z2),
        warp_component_spec(p.1, x2, z2),
        warp_component_spec(p.2, x2, y2),
    )
}

/// The fixed-point square of a coordinate in `[-1, 1]` lies in `[0, 1]`.
pub proof fn lemma_fx_sq_unit(a: int)
    requires
        -(FIXED_ONE as int) <= a <= FIXED_ONE as int,
    ensures
        0 <= fx_sq_spec(a) <= FIXED_ONE as int,
{
    lemma_mul_le(a, a, FIXED_ONE as int, FIXED_ONE as int);
    assert(a * a >= 0) by (nonlinear_arith);
    lemma_tdiv_range(a * a, FIXED_ONE as int, FIXED_ONE as int * FIXED_ONE as int);
}

/// For squares in `[0, 1]` the radicand lies in `[0, 1]`: the mixed quartic
/// term never outweighs the two negative quadratic ones.
pub proof fn lemma_radicand_range(a2: int, b2: int)
    requires
        0 <= a2 <= FIXED_ONE as int,
        0 <= b2 <= FIXED_ONE as int,
    ensures
        0 <= radicand_spec(a2, b2) <= FIXED_ONE as int,
{
    let s = FIXED_ONE as int;
    let q = fx_mul_spec(a2, b2);
    assert(0 <= a2 * b2 <= a2 * s) by (nonlinear_arith)
        requires 0 <= a2, 0 <= b2 <= s;
    vstd::arithmetic::div_mod::lemma_div_is_ordered(a2 * b2, a2 * s, s);
    vstd::arithmetic::div_mod::lemma_div_by_multiple(a2, s);
    assert(a2 * s == s * a2) by (nonlinear_arith);
    assert(q <= a2);
    vstd::arithmetic::div_mod::lemma_div_pos_is_pos(a2 * b2, s);
    vstd::arithmetic::div_mod::lemma_div_pos_is_pos(q, 3);
    vstd::arithmetic::div_mod::lemma_div_is_ordered(q, a2, 3);
    vstd::arithmetic::div_mod::lemma_div_is_ordered_by_denominator(a2, 2, 3);
    vstd::arithmetic::div_mod::lemma_div_pos_is_pos(b2, 2);
    vstd::arithmetic::div_mod::lemma_div_pos_is_pos(a2, 2);
    vstd::arithmetic::div_mod::lemma_div_is_ordered(a2, s, 2);
    vstd::arithmetic::div_mod::lemma_div_is_ordered(b2, s, 2);
}

/// One warp component: multiply the coordinate by the square root of the
/// radicand formed from the other two squares.
fn warp_component(c: i64, a2: i64, b2: i64) -> (r: i64)
    requires
        -FIXED_ONE <= c <= FIXED_ONE,
        0 <= a2 <= FIXED_ONE,
        0 <= b2 <= FIXED_ONE,
    ensures
        r == warp_component_spec(c as int, a2 as int, b2 as int),
        -FIXED_ONE <= r <= FIXED_ONE,
{
    let ghost s: int = FIXED_ONE as int;
    proof {
        lemma_radicand_range(a2 as int, b2 as int);
        lemma_mul_le(a2 as int, b2 as int, s, s);
    }
    let q: i64 = fx_mul(a2, b2);
    proof {
        lemma_tdiv_range(a2 as int * b2 as int, s, s * s);
    }
    let q3: i64 = div_trunc(q, 3);
    let rad: i64 = FIXED_ONE - div_trunc(a2, 2) - div_trunc(b2, 2) + q3;
    assert(rad == radicand_spec(a2 as int, b2 as int));
    proof {
        lemma_mul_le(rad as int, s, s, s);
    }
    let root: u64 = isqrt((rad * FIXED_ONE) as u64);
    proof {
        lemma_sq_le(root as int, s);
    }
    let root_i: i64 = root as i64;
    assert(root_i == fx_sqrt_spec(rad as int));
    proof {
        lemma_mul_le(c as int, root_i as int, s, s);
        lemma_tdiv_range(c as int * root_i as int, s, s * s);
    }
    let p: i64 = c * root_i;
    div_trunc(p, FIXED_ONE)
}

/// Warp a point of the cube surface onto the unit sphere, each component
/// scaled by the square root of its own radicand.
pub fn unit_cube_point_to_unit_sphere_point(pt: &[i64; 3]) -> (r: [i64; 3])
    requires
        -FIXED_ONE <= pt@[0] <= FIXED_ONE,
        -FIXED_ONE <= pt@[1] <= FIXED_ONE,
        -FIXED_ONE <= pt@[2] <= FIXED_ONE,
    ensures
        (r@[0] as int, r@[1] as int, r@[2] as int)
            == warp_point_spec((pt@[0] as int, pt@[1] as int, pt@[2] as int)),
        -FIXED_ONE <= r@[0] <= FIXED_ONE,
        -FIXED_ONE <= r@[1] <= FIXED_ONE,
        -FIXED_ONE <= r@[2] <= FIXED_ONE,
{
    let x = pt[0];
    let y = pt[1];
    let z = pt[2];
    proof {
        lemma_fx_sq_unit(x as int);
        lemma_fx_sq_unit(y as int);
        lemma_fx_sq_unit(z as int);
        lemma_mul_le(x as int, x as int, FIXED_ONE as int, FIXED_ONE as int);
        lemma_mul_le(y as int, y as int, FIXED_ONE as int, FIXED_ONE as int);
        lemma_mul_le(z as int, z as int, FIXED_ONE as int, FIXED_ONE as int);
    }
    let x2 = fx_mul(x, x);
    let y2 = fx_mul(y, y);
    let z2 = fx_mul(z, z);
    let nx = warp_component(x, y2, z2);
    let ny = warp_component(y, x2, z2);
    let nz = warp_component(z, x2, y2);
    [nx, ny, nz]
}

/// Scale a unit-sphere point by the sphere radius.
pub fn unit_sphere_point_to_sphere_point(pt: &[i64; 3], r: i64) -> (out: [i64; 3])
    requires
        -FIXED_ONE <= pt@[0] <= FIXED_ONE,
        -FIXED_ONE <= pt@[1] <= FIXED_ONE,
        -FIXED_ONE <= pt@[2] <= FIXED_ONE,
        0 < r <= MAX_RADIUS,
    ensures
        out@[0] == fx_mul_spec(pt@[0] as int, r as int),
        out@[1] == fx_mul_spec(pt@[1] as int, r as int),
        out@[2] == fx_mul_spec(pt@[2] as int, r as int),
        -r <= out@[0] <= r,
        -r <= out@[1] <= r,
        -r <= out@[2] <= r,
{
    proof {
        lemma_scaled_bound(pt@[0] as int, r as int);
        lemma_scaled_bound(pt@[1] as int, r as int);
        lemma_scaled_bound(pt@[2] as int, r as int);
    }
    [fx_mul(pt[0], r), fx_mul(pt[1], r), fx_mul(pt[2], r)]
}

/// Scaling a coordinate in `[-1, 1]` by a radius keeps it within the radius.
proof fn lemma_scaled_bound(p: int, r: int)
    requires
        -(FIXED_ONE as int) <= p <= FIXED_ONE as int,
        0 < r <= MAX_RADIUS as int,
    ensures
        -r <= fx_mul_spec(p, r) <= r,
        -(FIXED_ONE as int) * (MAX_RADIUS as int) <= p * r
            <= (FIXED_ONE as int) * (MAX_RADIUS as int),
{
    let s = FIXED_ONE as int;
    lemma_mul_le(p, r, s, r);
    lemma_mul_le(p, r, s, MAX_RADIUS as int);
    lemma_tdiv_range(p * r, s, s * r);
    vstd::arithmetic::div_mod::lemma_div_by_multiple(r, s);
    assert(r * s == s * r) by (nonlinear_arith);
}

/// The normal of a point of the warped sphere is the unit-sphere point
/// itself.
pub fn unit_sphere_point_to_normal(pt: &[i64; 3]) -> (out: [i64; 3])
    ensures
        out@[0] == pt@[0],
        out@[1] == pt@[1],
        out@[2] == pt@[2],
{
    *pt
}

/// The cross product of the normal with the face's reference axis, one
/// fixed-point component.
pub open spec fn cross_spec(n: (int, int, int), r: (int, int, int)) -> (int, int, int) {
    (
        fx_mul_spec(n.1, r.2) - fx_mul_spec(n.2, r.1),
        fx_mul_spec(n.2, r.0) - fx_mul_spec(n.0, r.2),
        fx_mul_spec(n.0, r.1) - fx_mul_spec(n.1, r.0),
    )
}

/// The tangent at a unit-sphere point: the normalized cross product of the
/// normal with the face's reference axis, with handedness +1.  A zero cross
/// product (normal parallel to the reference axis, possible only at the
/// poles of the reference) falls back to the world X axis.
pub open spec fn tangent_spec(n: (int, int, int), f: CubeFace) -> (int, int, int, int) {
    let c = cross_spec(n, tangent_ref_spec(f));
    let norm2 = fx_sq_spec(c.0) + fx_sq_spec(c.1) + fx_sq_spec(c.2);
    let norm = fx_sqrt_spec(norm2);
    if norm == 0 {
        (FIXED_ONE as int, 0, 0, FIXED_ONE as int)
    } else {
        (
            tdiv(c.0 * FIXED_ONE, norm),
            tdiv(c.1 * FIXED_ONE, norm),
            tdiv(c.2 * FIXED_ONE, norm),
            FIXED_ONE as int,
        )
    }
}

/// Derive the tangent frame of a vertex from its unit-sphere point and its
/// face's reference axis.
pub fn unit_sphere_point_to_tangent(pt: &[i64; 3], f: CubeFace) -> (out: [i64; 4])
    requires
        -FIXED_ONE <= pt@[0] <= FIXED_ONE,
        -FIXED_ONE <= pt@[1] <= FIXED_ONE,
        -FIXED_ONE <= pt@[2] <= FIXED_ONE,
    ensures
        (out@[0] as int, out@[1] as int, out@[2] as int, out@[3] as int)
            == tangent_spec((pt@[0] as int, pt@[1] as int, pt@[2] as int), f),
{
    let ghost s: int = FIXED_ONE as int;
    let x = pt[0];
    let y = pt[1];
    let z = pt[2];
    let other = tangent_reference(f);
    let u = other[0];
    let v = other[1];
    let w = other[2];
    assert(-FIXED_ONE <= u <= FIXED_ONE);
    assert(-FIXED_ONE <= v <= FIXED_ONE);
    assert(-FIXED_ONE <= w <= FIXED_ONE);
    proof {
        lemma_cross_term_bound(x as int, y as int, z as int, u as int, v as int, w as int);
    }
    let a: i64 = fx_mul(y, w) - fx_mul(z, v);
    let b: i64 = fx_mul(z, u) - fx_mul(x, w);
    let c: i64 = fx_mul(x, v) - fx_mul(y, u);
    proof {
        lemma_mul_le(a as int, a as int, 2 * s, 2 * s);
        lemma_mul_le(b as int, b as int, 2 * s, 2 * s);
        lemma_mul_le(c as int, c as int, 2 * s, 2 * s);
        lemma_tdiv_range(a as int * a as int, s, 4 * s * s);
        lemma_tdiv_range(b as int * b as int, s, 4 * s * s);
        lemma_tdiv_range(c as int * c as int, s, 4 * s * s);
        assert(a as int * a as int >= 0) by (nonlinear_arith);
        assert(b as int * b as int >= 0) by (nonlinear_arith);
        assert(c as int * c as int >= 0) by (nonlinear_arith);
    }
    let norm2: i64 = fx_mul(a, a) + fx_mul(b, b) + fx_mul(c, c);
    assert(0 <= norm2 <= 12 * FIXED_ONE);
    proof {
        lemma_mul_le(norm2 as int, s, 12 * s, s);
    }
    let norm: u64 = isqrt((norm2 * FIXED_ONE) as u64);
    proof {
        lemma_sq_le(norm as int, 4 * s);
        assert((4 * s) * (4 * s) >= 12 * s * s) by (nonlinear_arith);
    }
    let norm_i: i64 = norm as i64;
    assert(norm_i == fx_sqrt_spec(norm2 as int));
    if norm_i == 0 {
        [FIXED_ONE, 0, 0, FIXED_ONE]
    } else {
        proof {
            lemma_mul_le(a as int, s, 2 * s, s);
            lemma_mul_le(b as int, s, 2 * s, s);
            lemma_mul_le(c as int, s, 2 * s, s);
        }
        let ta = div_trunc(a * FIXED_ONE, norm_i);
        let tb = div_trunc(b * FIXED_ONE, norm_i);
        let tc = div_trunc(c * FIXED_ONE, norm_i);
        [ta, tb, tc, FIXED_ONE]
    }
}

/// Each cross-product term of coordinates in `[-1, 1]` is bounded by 2 and
/// its products fit comfortably in 64 bits.
proof fn lemma_cross_term_bound(x: int, y: int, z: int, u: int, v: int, w: int)
    requires
        -(FIXED_ONE as int) <= x <= FIXED_ONE as int,
        -(FIXED_ONE as int) <= y <= FIXED_ONE as int,
        -(FIXED_ONE as int) <= z <= FIXED_ONE as int,
        -(FIXED_ONE as int) <= u <= FIXED_ONE as int,
        -(FIXED_ONE as int) <= v <= FIXED_ONE as int,
        -(FIXED_ONE as int) <= w <= FIXED_ONE as int,
    ensures
        -(FIXED_ONE as int) <= fx_mul_spec(y, w) <= FIXED_ONE as int,
        -(FIXED_ONE as int) <= fx_mul_spec(z, v) <= FIXED_ONE as int,
        -(FIXED_ONE as int) <= fx_mul_spec(z, u) <= FIXED_ONE as int,
        -(FIXED_ONE as int) <= fx_mul_spec(x, w) <= FIXED_ONE as int,
        -(FIXED_ONE as int) <= fx_mul_spec(x, v) <= FIXED_ONE as int,
        -(FIXED_ONE as int) <= fx_mul_spec(y, u) <= FIXED_ONE as int,
        -(FIXED_ONE as int) * (FIXED_ONE as int) <= y * w <= (FIXED_ONE as int) * (FIXED_ONE as int),
        -(FIXED_ONE as int) * (FIXED_ONE as int) <= z * v <= (FIXED_ONE as int) * (FIXED_ONE as int),
        -(FIXED_ONE as int) * (FIXED_ONE as int) <= z * u <= (FIXED_ONE as int) * (FIXED_ONE as int),
        -(FIXED_ONE as int) * (FIXED_ONE as int) <= x * w <= (FIXED_ONE as int) * (FIXED_ONE as int),
        -(FIXED_ONE as int) * (FIXED_ONE as int) <= x * v <= (FIXED_ONE as int) * (FIXED_ONE as int),
        -(FIXED_ONE as int) * (FIXED_ONE as int) <= y * u <= (FIXED_ONE as int) * (FIXED_ONE as int),
{
    let s = FIXED_ONE as int;
    lemma_mul_le(y, w, s, s);
    lemma_mul_le(z, v, s, s);
    lemma_mul_le(z, u, s, s);
    lemma_mul_le(x, w, s, s);
    lemma_mul_le(x, v, s, s);
    lemma_mul_le(y, u, s, s);
    lemma_tdiv_range(y * w, s, s * s);
    lemma_tdiv_range(z * v, s, s * s);
    lemma_tdiv_range(z * u, s, s * s);
    lemma_tdiv_range(x * w, s, s * s);
    lemma_tdiv_range(x * v, s, s * s);
    lemma_tdiv_range(y * u, s, s * s);
}

/// Scaling a point by the radius scales its exact squared length by the
/// radius squared: with [`lemma_warp_exact_unit_norm`], emitted positions
/// lie at distance `radius` from the center in exact real arithmetic.
pub proof fn lemma_scaled_point_norm(x: int, y: int, z: int, r: int)
    by (nonlinear_arith)
    ensures
        (r * x) * (r * x) + (r * y) * (r * y) + (r * z) * (r * z)
            == (r * r) * (x * x + y * y + z * z),
{
}

/// The numerator of one exact warp radicand over the common denominator
/// `6 * FIXED_ONE⁴`: `6 - 3a² - 3b² + 2a²b²` in real terms, over the exact
/// squares `a2` and `b2`.
pub open spec fn exact_radicand_num(a2: int, b2: int) -> int {
    let s2 = (FIXED_ONE as int) * (FIXED_ONE as int);
    6 * s2 * s2 - 3 * s2 * a2 - 3 * s2 * b2 + 2 * a2 * b2
}

/// On the cube surface (some coordinate exactly ±1) the exact warp lands
/// exactly on the unit sphere: the warped squared length,
/// `x²·Rx + y²·Ry + z²·Rz` over the common denominator `6 * FIXED_ONE⁶`,
/// equals that denominator — in real terms `|warp(p)|² == 1`.
pub proof fn lemma_warp_exact_unit_norm(x: int, y: int, z: int)
    requires
        x * x == (FIXED_ONE as int) * (FIXED_ONE as int)
            || y * y == (FIXED_ONE as int) * (FIXED_ONE as int)
            || z * z == (FIXED_ONE as int) * (FIXED_ONE as int),
    ensures
        x * x * exact_radicand_num(y * y, z * z)
            + y * y * exact_radicand_num(x * x, z * z)
            + z * z * exact_radicand_num(x * x, y * y)
            == 6 * ((FIXED_ONE as int) * (FIXED_ONE as int))
                * ((FIXED_ONE as int) * (FIXED_ONE as int))
                * ((FIXED_ONE as int) * (FIXED_ONE as int)),
{
    let s2 = (FIXED_ONE as int) * (FIXED_ONE as int);
    if x * x == s2 {
        lemma_unit_norm_core(s2, y * y, z * z);
        assert(2 * (x * x) * (z * z) == 2 * s2 * (z * z)) by (nonlinear_arith)
            requires x * x == s2;
        assert(2 * (x * x) * (y * y) == 2 * s2 * (y * y)) by (nonlinear_arith)
            requires x * x == s2;
    } else if y * y == s2 {
        lemma_unit_norm_core(s2, x * x, z * z);
        assert(2 * (y * y) * (z * z) == 2 * s2 * (z * z)) by (nonlinear_arith)
            requires y * y == s2;
        assert(2 * (x * x) * (y * y) == 2 * s2 * (x * x)) by (nonlinear_arith)
            requires y * y == s2;
    } else {
        lemma_unit_norm_core(s2, x * x, y * y);
        assert(2 * (y * y) * (z * z) == 2 * s2 * (y * y)) by (nonlinear_arith)
            requires z * z == s2;
        assert(2 * (x * x) * (z * z) == 2 * s2 * (x * x)) by (nonlinear_arith)
            requires z * z == s2;
    }
}

/// The algebraic heart of the warp, with the unit square already
/// substituted for the first coordinate's square: the three radicand
/// numerators weighted by the squares sum to the unit sixth power -- the
/// identity behind the unit-length normals.
#[verifier::rlimit(100)]
proof fn lemma_unit_norm_core(s2: int, yy: int, zz: int)
    by (nonlinear_arith)
    ensures
        s2 * (6 * s2 * s2 - 3 * s2 * yy - 3 * s2 * zz + 2 * yy * zz)
            + yy * (6 * s2 * s2 - 3 * s2 * s2 - 3 * s2 * zz + 2 * s2 * zz)
            + zz * (6 * s2 * s2 - 3 * s2 * s2 - 3 * s2 * yy + 2 * s2 * yy)
            == 6 * s2 * s2 * s2,
{
}

} // verus!
