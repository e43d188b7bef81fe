//! The forward mesh builder: walk an `n × n` grid on each of the six cube
//! faces, warp each grid point onto the sphere, emit one vertex per grid
//! point into four parallel attribute buffers, then emit two triangles per
//! grid cell into a 32-bit index buffer.

use vstd::prelude::*;
use crate::atlas::unit_sphere_point_to_uv;
use crate::atlas::uv_spec;
use crate::face::CubeFace;
use crate::face::face_from_index;
use crate::face::face_of_index;
use crate::fixed::FIXED_ONE;
use crate::fixed::MAX_RADIUS;
use crate::fixed::div_trunc;
use crate::fixed::fx_mul_spec;
use crate::fixed::lemma_tdiv_range;
use crate::fixed::tdiv;
use crate::sphere::CubeSphere;
use crate::warp::tangent_spec;
use crate::warp::unit_cube_point_to_unit_sphere_point;
use crate::warp::unit_sphere_point_to_normal;
use crate::warp::unit_sphere_point_to_sphere_point;
use crate::warp::unit_sphere_point_to_tangent;
use crate::warp::warp_point_spec;

verus! {

/// The one construction-time failure: a resolution outside `[2, 103]`, the
/// range that keeps `6 * resolution²` vertices within a 16-bit-safe index
/// space.  Construction is all-or-nothing; no partial mesh is produced.
#[derive(Debug, Clone, Copy, PartialEq, Eq, Structural)]
pub enum MeshError {
    InvalidResolution,
}

/// A triangle mesh: four index-aligned vertex attribute buffers plus a flat
/// triangle-list index buffer with counter-clockwise-front winding.
#[derive(Debug)]
pub struct MeshData {
    /// Vertex positions, on the sphere of the configured radius.
    pub points: Vec<[i64; 3]>,
    /// Unit vertex normals (the unit-sphere points themselves).
    pub normals: Vec<[i64; 3]>,
    /// Vertex tangents: unit direction plus a +1 handedness component.
    pub tangents: Vec<[i64; 4]>,
    /// Vertex atlas coordinates, inside the unit square.
    pub uvs: Vec<[i64; 2]>,
    /// Triangle corners, three consecutive entries per triangle.
    pub indices: Vec<u32>,
}

/// A fixed-point coordinate triple as a mathematical one.
pub open spec fn v3(a: [i64; 3]) -> (int, int, int) {
    (a@[0] as int, a@[1] as int, a@[2] as int)
}

/// A fixed-point coordinate quadruple as a mathematical one.
pub open spec fn v4(a: [i64; 4]) -> (int, int, int, int) {
    (a@[0] as int, a@[1] as int, a@[2] as int, a@[3] as int)
}

/// A fixed-point coordinate pair as a mathematical one.
pub open spec fn v2(a: [i64; 2]) -> (int, int) {
    (a@[0] as int, a@[1] as int)
}

/// A point scaled by the sphere radius, componentwise.
pub open spec fn scale_point_spec(p: (int, int, int), r: int) -> (int, int, int) {
    (fx_mul_spec(p.0, r), fx_mul_spec(p.1, r), fx_mul_spec(p.2, r))
}

/// The fixed-point grid coordinate of sample `a` of `n` along one face
/// edge: `-1 + 2a/(n - 1)`, walking `[-1, 1]` in `n` uniform steps.
pub open spec fn grid_coord_spec(n: int, a: int) -> int {
    tdiv(2 * FIXED_ONE * a, n - 1) - FIXED_ONE
}

/// The cube-surface point of grid sample `(a, b)` on a face: the face's
/// normal axis is held at ±1 and the two walked axes run linearly, with
/// signs and order fixing the outward orientation.
pub open spec fn cube_point_spec(f: CubeFace, n: int, a: int, b: int) -> (int, int, int) {
    let s = FIXED_ONE as int;
    let ca = grid_coord_spec(n, a);
    let cb = grid_coord_spec(n, b);
    match f {
        CubeFace::Front => (ca, cb, s),
        CubeFace::Back => (-ca, cb, -s),
        CubeFace::Left => (-s, cb, ca),
        CubeFace::Right => (s, cb, -ca),
        CubeFace::Top => (ca, s, -cb),
        CubeFace::Bottom => (ca, -s, cb),
    }
}

/// The flat position of grid sample `(a, b)` of face number `f`.
pub open spec fn vertex_index_spec(n: int, f: int, a: int, b: int) -> int {
    f * n * n + a * n + b
}

/// Every grid sample lies on the cube surface: one coordinate of its cube
/// point is exactly ±1, which is what [`crate::lemma_warp_exact_unit_norm`]
/// asks of a point for the exact warp to land on the unit sphere.
pub proof fn lemma_cube_point_on_surface(f: CubeFace, n: int, a: int, b: int)
    ensures
        ({
            let p = cube_point_spec(f, n, a, b);
            let s2 = (FIXED_ONE as int) * (FIXED_ONE as int);
            p.0 * p.0 == s2 || p.1 * p.1 == s2 || p.2 * p.2 == s2
        }),
{
    let s = FIXED_ONE as int;
    assert((-s) * (-s) == s * s) by (nonlinear_arith);
}

/// Grid coordinate of one sample along a face edge.
fn grid_coord(n: usize, a: usize) -> (r: i64)
    requires
        2 <= n <= 103,
        a < n,
    ensures
        r == grid_coord_spec(n as int, a as int),
        -FIXED_ONE <= r <= FIXED_ONE,
{
    let ai: i64 = a as i64;
    let den: i64 = (n as i64) - 1;
    proof {
        assert(0 <= 2 * FIXED_ONE * (ai as int) <= 2 * FIXED_ONE * (den as int)
            && 2 * FIXED_ONE * (den as int) <= 2_040_000_000)
            by (nonlinear_arith)
            requires
                0 <= ai as int <= den as int,
                den as int <= 102,
                FIXED_ONE == 10_000_000;
        lemma_tdiv_range(
            2 * FIXED_ONE * (ai as int),
            den as int,
            2 * FIXED_ONE * (den as int),
        );
        vstd::arithmetic::div_mod::lemma_div_by_multiple(2 * (FIXED_ONE as int), den as int);
        assert((2 * (FIXED_ONE as int)) * (den as int) == 2 * FIXED_ONE * (den as int));
    }
    let num: i64 = 2 * FIXED_ONE * ai;
    div_trunc(num, den) - FIXED_ONE
}

/// The cube-surface point of one grid sample of a face.
fn cube_point_at(f: CubeFace, n: usize, a: usize, b: usize) -> (p: [i64; 3])
    requires
        2 <= n <= 103,
        a < n,
        b < n,
    ensures
        (p@[0] as int, p@[1] as int, p@[2] as int)
            == cube_point_spec(f, n as int, a as int, b as int),
        -FIXED_ONE <= p@[0] <= FIXED_ONE,
        -FIXED_ONE <= p@[1] <= FIXED_ONE,
        -FIXED_ONE <= p@[2] <= FIXED_ONE,
{
    let ca = grid_coord(n, a);
    let cb = grid_coord(n, b);
    match f {
        CubeFace::Front => [ca, cb, FIXED_ONE],
        CubeFace::Back => [-ca, cb, -FIXED_ONE],
        CubeFace::Left => [-FIXED_ONE, cb, ca],
        CubeFace::Right => [FIXED_ONE, cb, -ca],
        CubeFace::Top => [ca, FIXED_ONE, -cb],
        CubeFace::Bottom => [ca, -FIXED_ONE, cb],
    }
}

/// The flat number of grid cell `(x, y)` of face number `f` among all
/// emitted cells, in emission order (face, then x, then y).
pub open spec fn cell_num_spec(n: int, f: int, x: int, y: int) -> int {
    (f * (n - 1) + x) * (n - 1) + y
}

/// The position of corner `r` (of six) of a grid cell in the emitted index
/// buffer.
pub open spec fn tri_flat_pos(n: int, f: int, x: int, y: int, r: int) -> int {
    6 * cell_num_spec(n, f, x, y) + r
}

/// Corner `r` (of six) emitted for grid cell `(x, y)` of face number `f`:
/// two counter-clockwise triangles over the cell's four grid-adjacent
/// vertices `i`, `i+1`, `i+n`, `i+n+1`.
pub open spec fn tri_index_val(n: int, f: int, x: int, y: int, r: int) -> int {
    let i = f * n * n + y * n + x;
    if r == 0 {
        i
    } else if r == 1 {
        i + n
    } else if r == 2 {
        i + 1
    } else if r == 3 {
        i + 1
    } else if r == 4 {
        i + n
    } else {
        i + n + 1
    }
}

/// The three corners of triangle `t` (entries `3t` to `3t + 2` past
/// `base`) are pairwise distinct.
pub open spec fn triangle_distinct(s: Seq<u32>, base: int, t: int) -> bool {
    &&& s[base + 3 * t] != s[base + 3 * t + 1]
    &&& s[base + 3 * t] != s[base + 3 * t + 2]
    &&& s[base + 3 * t + 1] != s[base + 3 * t + 2]
}

/// Every grid cell's number lies below the total cell count.
proof fn lemma_cell_num_range(n: int, f: int, x: int, y: int)
    by (nonlinear_arith)
    requires
        2 <= n,
        0 <= f < 6,
        0 <= x < n - 1,
        0 <= y < n - 1,
    ensures
        0 <= cell_num_spec(n, f, x, y) < 6 * (n - 1) * (n - 1),
{
}

/// Distinct cells have distinct cell numbers.
proof fn lemma_cell_num_injective(
    n: int,
    f1: int,
    x1: int,
    y1: int,
    f2: int,
    x2: int,
    y2: int,
)
    by (nonlinear_arith)
    requires
        2 <= n,
        0 <= f1 < 6,
        0 <= x1 < n - 1,
        0 <= y1 < n - 1,
        0 <= f2 < 6,
        0 <= x2 < n - 1,
        0 <= y2 < n - 1,
        cell_num_spec(n, f1, x1, y1) == cell_num_spec(n, f2, x2, y2),
    ensures
        f1 == f2,
        x1 == x2,
        y1 == y2,
{
}

/// Append the whole index buffer: for each face and each of its
/// `(n-1) × (n-1)` grid cells, two counter-clockwise triangles over the
/// cell's four grid-adjacent vertices.  Every appended entry stays below
/// the vertex count `6n²` and no triangle is degenerate.
pub fn insert_indices(n: u32, indices: &mut Vec<u32>)
    requires
        2 <= n <= 103,
    ensures
        final(indices)@.len() == old(indices)@.len()
            + 36 * ((n as int) - 1) * ((n as int) - 1),
        forall|k: int|
            0 <= k < old(indices)@.len() ==> final(indices)@[k] == old(indices)@[k],
        forall|f: int, x: int, y: int, r: int|
            0 <= f < 6 && 0 <= x < (n as int) - 1 && 0 <= y < (n as int) - 1 && 0 <= r < 6
                ==> final(indices)@[old(indices)@.len()
                        + #[trigger] tri_flat_pos(n as int, f, x, y, r)] as int
                    == tri_index_val(n as int, f, x, y, r),
        forall|k: int|
            old(indices)@.len() <= k < final(indices)@.len()
                ==> (#[trigger] final(indices)@[k]) < 6 * n * n,
        forall|t: int|
            0 <= t < 12 * ((n as int) - 1) * ((n as int) - 1)
                ==> #[trigger] triangle_distinct(
                        final(indices)@,
                        old(indices)@.len() as int,
                        t,
                    ),
{
    let edge: u32 = n - 1;
    let ghost base: int = old(indices)@.len() as int;
    let ghost nn: int = n as int;
    let mut f: u32 = 0;
    while f < 6
        invariant
            2 <= n <= 103,
            edge == n - 1,
            base == old(indices)@.len(),
            nn == n as int,
            f <= 6,
            indices@.len() == base + 6 * cell_num_spec(nn, f as int, 0, 0),
            forall|k: int| 0 <= k < base ==> indices@[k] == old(indices)@[k],
            forall|f1: int, x1: int, y1: int, r: int|
                0 <= f1 < 6 && 0 <= x1 < nn - 1 && 0 <= y1 < nn - 1 && 0 <= r < 6
                    && cell_num_spec(nn, f1, x1, y1) < cell_num_spec(nn, f as int, 0, 0)
                    ==> indices@[base + #[trigger] tri_flat_pos(nn, f1, x1, y1, r)] as int
                        == tri_index_val(nn, f1, x1, y1, r),
            forall|k: int|
                base <= k < indices@.len() ==> (#[trigger] indices@[k]) < 6 * n * n,
            forall|t: int|
                0 <= t < 2 * cell_num_spec(nn, f as int, 0, 0)
                    ==> #[trigger] triangle_distinct(indices@, base, t),
        decreases 6 - f,
    {
        let mut x: u32 = 0;
        while x < edge
            invariant
                2 <= n <= 103,
                edge == n - 1,
                base == old(indices)@.len(),
                nn == n as int,
                f < 6,
                x <= edge,
                indices@.len() == base + 6 * cell_num_spec(nn, f as int, x as int, 0),
                forall|k: int| 0 <= k < base ==> indices@[k] == old(indices)@[k],
                forall|f1: int, x1: int, y1: int, r: int|
                    0 <= f1 < 6 && 0 <= x1 < nn - 1 && 0 <= y1 < nn - 1 && 0 <= r < 6
                        && cell_num_spec(nn, f1, x1, y1)
                            < cell_num_spec(nn, f as int, x as int, 0)
                        ==> indices@[base + #[trigger] tri_flat_pos(nn, f1, x1, y1, r)] as int
                            == tri_index_val(nn, f1, x1, y1, r),
                forall|k: int|
                    base <= k < indices@.len() ==> (#[trigger] indices@[k]) < 6 * n * n,
                forall|t: int|
                    0 <= t < 2 * cell_num_spec(nn, f as int, x as int, 0)
                        ==> #[trigger] triangle_distinct(indices@, base, t),
            decreases edge - x,
        {
            let mut y: u32 = 0;
            while y < edge
                invariant
                    2 <= n <= 103,
                    edge == n - 1,
                    base == old(indices)@.len(),
                    nn == n as int,
                    f < 6,
                    x < edge,
                    y <= edge,
                    indices@.len() == base + 6 * cell_num_spec(nn, f as int, x as int, y as int),
                    forall|k: int| 0 <= k < base ==> indices@[k] == old(indices)@[k],
                    forall|f1: int, x1: int, y1: int, r: int|
                        0 <= f1 < 6 && 0 <= x1 < nn - 1 && 0 <= y1 < nn - 1 && 0 <= r < 6
                            && cell_num_spec(nn, f1, x1, y1)
                                < cell_num_spec(nn, f as int, x as int, y as int)
                            ==> indices@[base + #[trigger] tri_flat_pos(nn, f1, x1, y1, r)] as int
                                == tri_index_val(nn, f1, x1, y1, r),
                    forall|k: int|
                        base <= k < indices@.len() ==> (#[trigger] indices@[k]) < 6 * n * n,
                    forall|t: int|
                        0 <= t < 2 * cell_num_spec(nn, f as int, x as int, y as int)
                            ==> #[trigger] triangle_distinct(indices@, base, t),
                decreases edge - y,
            {
                proof {
                    lemma_cell_num_range(nn, f as int, x as int, y as int);
                    assert(0 <= (f as int) * nn <= 618
                        && 0 <= (f as int) * nn * nn <= 53045
                        && 0 <= (y as int) * nn <= 10609
                        && (f as int) * nn * nn + (y as int) * nn + (x as int) + nn + 1
                            < 6 * nn * nn
                        && 6 * nn * nn <= 63654) by (nonlinear_arith)
                        requires
                            (f as int) < 6,
                            0 <= (x as int) < nn - 1,
                            0 <= (y as int) < nn - 1,
                            2 <= nn <= 103;
                }
                let i: u32 = f * n * n + y * n + x;
                let ghost s0 = indices@;
                let ghost c0 = cell_num_spec(nn, f as int, x as int, y as int);
                indices.push(i);
                indices.push(i + n);
                indices.push(i + 1);
                indices.push(i + 1);
                indices.push(i + n);
                indices.push(i + n + 1);
                proof {
                    assert(s0.len() == base + 6 * c0);
                    assert forall|k: int| 0 <= k < s0.len() implies indices@[k] == s0[k] by {
                    }
                    assert(indices@[base + 6 * c0 + 0] == i);
                    assert(indices@[base + 6 * c0 + 1] == i + n);
                    assert(indices@[base + 6 * c0 + 2] == i + 1);
                    assert(indices@[base + 6 * c0 + 3] == i + 1);
                    assert(indices@[base + 6 * c0 + 4] == i + n);
                    assert(indices@[base + 6 * c0 + 5] == i + n + 1);
                    assert(cell_num_spec(nn, f as int, x as int, (y + 1) as int) == c0 + 1);
                    assert forall|f1: int, x1: int, y1: int, r: int|
                        0 <= f1 < 6 && 0 <= x1 < nn - 1 && 0 <= y1 < nn - 1 && 0 <= r < 6
                            && cell_num_spec(nn, f1, x1, y1) < c0 + 1
                        implies indices@[base + #[trigger] tri_flat_pos(nn, f1, x1, y1, r)] as int
                            == tri_index_val(nn, f1, x1, y1, r) by {
                        if cell_num_spec(nn, f1, x1, y1) == c0 {
                            lemma_cell_num_injective(
                                nn, f1, x1, y1, f as int, x as int, y as int);
                        }
                    }
                    assert forall|t: int| 0 <= t < 2 * (c0 + 1)
                        implies #[trigger] triangle_distinct(indices@, base, t) by {
                        if t == 2 * c0 {
                            assert(indices@[base + 3 * t] == i);
                            assert(indices@[base + 3 * t + 1] == i + n);
                            assert(indices@[base + 3 * t + 2] == i + 1);
                        } else if t == 2 * c0 + 1 {
                            assert(indices@[base + 3 * t] == i + 1);
                            assert(indices@[base + 3 * t + 1] == i + n);
                            assert(indices@[base + 3 * t + 2] == i + n + 1);
                        } else {
                            assert(triangle_distinct(s0, base, t));
                            assert(indices@[base + 3 * t] == s0[base + 3 * t]);
                            assert(indices@[base + 3 * t + 1] == s0[base + 3 * t + 1]);
                            assert(indices@[base + 3 * t + 2] == s0[base + 3 * t + 2]);
                        }
                    }
                }
                y = y + 1;
            }
            proof {
                assert(cell_num_spec(nn, f as int, x as int, nn - 1)
                    == cell_num_spec(nn, f as int, (x + 1) as int, 0)) by (nonlinear_arith);
            }
            x = x + 1;
        }
        proof {
            assert(cell_num_spec(nn, f as int, nn - 1, 0)
                == cell_num_spec(nn, (f + 1) as int, 0, 0)) by (nonlinear_arith);
        }
        f = f + 1;
    }
    proof {
        assert(6 * cell_num_spec(nn, 6, 0, 0) == 36 * (nn - 1) * (nn - 1)) by (nonlinear_arith);
        assert forall|f1: int, x1: int, y1: int|
            0 <= f1 < 6 && 0 <= x1 < nn - 1 && 0 <= y1 < nn - 1
            implies #[trigger] cell_num_spec(nn, f1, x1, y1) < cell_num_spec(nn, 6, 0, 0) by {
            lemma_cell_num_range(nn, f1, x1, y1);
            assert(cell_num_spec(nn, 6, 0, 0) == 6 * (nn - 1) * (nn - 1)) by (nonlinear_arith);
        }
        assert(2 * cell_num_spec(nn, 6, 0, 0) == 12 * (nn - 1) * (nn - 1)) by (nonlinear_arith);
    }
}

/// Warp one cube-surface point and append its position, normal, tangent
/// and atlas coordinate to the four attribute buffers.
fn insert_attributes(
    unit_cube_point: &[i64; 3],
    radius: i64,
    face: CubeFace,
    points: &mut Vec<[i64; 3]>,
    normals: &mut Vec<[i64; 3]>,
    tangents: &mut Vec<[i64; 4]>,
    uvs: &mut Vec<[i64; 2]>,
)
    requires
        -FIXED_ONE <= unit_cube_point@[0] <= FIXED_ONE,
        -FIXED_ONE <= unit_cube_point@[1] <= FIXED_ONE,
        -FIXED_ONE <= unit_cube_point@[2] <= FIXED_ONE,
        0 < radius <= MAX_RADIUS,
    ensures
        final(points)@.len() == old(points)@.len() + 1,
        final(normals)@.len() == old(normals)@.len() + 1,
        final(tangents)@.len() == old(tangents)@.len() + 1,
        final(uvs)@.len() == old(uvs)@.len() + 1,
        forall|k: int| 0 <= k < old(points)@.len() ==> final(points)@[k] == old(points)@[k],
        forall|k: int| 0 <= k < old(normals)@.len() ==> final(normals)@[k] == old(normals)@[k],
        forall|k: int| 0 <= k < old(tangents)@.len() ==> final(tangents)@[k] == old(tangents)@[k],
        forall|k: int| 0 <= k < old(uvs)@.len() ==> final(uvs)@[k] == old(uvs)@[k],
        v3(final(points)@[old(points)@.len() as int])
            == scale_point_spec(warp_point_spec(v3(*unit_cube_point)), radius as int),
        v3(final(normals)@[old(normals)@.len() as int])
            == warp_point_spec(v3(*unit_cube_point)),
        v4(final(tangents)@[old(tangents)@.len() as int])
            == tangent_spec(warp_point_spec(v3(*unit_cube_point)), face),
        v2(final(uvs)@[old(uvs)@.len() as int])
            == uv_spec(warp_point_spec(v3(*unit_cube_point)), face),
        0 <= final(uvs)@[old(uvs)@.len() as int]@[0] <= FIXED_ONE,
        0 <= final(uvs)@[old(uvs)@.len() as int]@[1] <= FIXED_ONE,
{
    let unit_sphere_point = unit_cube_point_to_unit_sphere_point(unit_cube_point);
    points.push(unit_sphere_point_to_sphere_point(&unit_sphere_point, radius));
    normals.push(unit_sphere_point_to_normal(&unit_sphere_point));
    tangents.push(unit_sphere_point_to_tangent(&unit_sphere_point, face));
    uvs.push(unit_sphere_point_to_uv(&unit_sphere_point, face));
}

/// Every grid sample's flat position lies below the total vertex count.
proof fn lemma_vertex_index_range(n: int, f: int, a: int, b: int)
    by (nonlinear_arith)
    requires
        2 <= n,
        0 <= f < 6,
        0 <= a < n,
        0 <= b < n,
    ensures
        0 <= vertex_index_spec(n, f, a, b) < 6 * n * n,
{
}

/// Distinct grid samples have distinct flat positions.
proof fn lemma_vertex_index_injective(
    n: int,
    f1: int,
    a1: int,
    b1: int,
    f2: int,
    a2: int,
    b2: int,
)
    by (nonlinear_arith)
    requires
        2 <= n,
        0 <= f1 < 6,
        0 <= a1 < n,
        0 <= b1 < n,
        0 <= f2 < 6,
        0 <= a2 < n,
        0 <= b2 < n,
        vertex_index_spec(n, f1, a1, b1) == vertex_index_spec(n, f2, a2, b2),
    ensures
        f1 == f2,
        a1 == a2,
        b1 == b2,
{
}

/// The vertex at grid sample `(a, b)` of face number `f` carries exactly
/// the attributes the sample describes: the warped unit-sphere point as
/// normal, that point scaled by the radius as position, the face's tangent
/// frame and the face's atlas placement.
pub open spec fn vertex_ok(
    points: Seq<[i64; 3]>,
    normals: Seq<[i64; 3]>,
    tangents: Seq<[i64; 4]>,
    uvs: Seq<[i64; 2]>,
    radius: int,
    n: int,
    f: int,
    a: int,
    b: int,
) -> bool {
    let k = vertex_index_spec(n, f, a, b);
    let face = face_of_index(f);
    let unit = warp_point_spec(cube_point_spec(face, n, a, b));
    &&& v3(points[k]) == scale_point_spec(unit, radius)
    &&& v3(normals[k]) == unit
    &&& v4(tangents[k]) == tangent_spec(unit, face)
    &&& v2(uvs[k]) == uv_spec(unit, face)
}

/// A mesh is exactly the one its configuration describes: buffer lengths,
/// every vertex attribute, every index entry, index bounds, non-degenerate
/// triangles, and atlas coordinates inside the unit square.
pub open spec fn mesh_complete(m: MeshData, c: CubeSphere) -> bool {
    let n = c.resolution as int;
    &&& m.points@.len() == 6 * n * n
    &&& m.normals@.len() == 6 * n * n
    &&& m.tangents@.len() == 6 * n * n
    &&& m.uvs@.len() == 6 * n * n
    &&& m.indices@.len() == 36 * (n - 1) * (n - 1)
    &&& forall|f: int, a: int, b: int|
            0 <= f < 6 && 0 <= a < n && 0 <= b < n
                ==> #[trigger] vertex_ok(
                        m.points@, m.normals@, m.tangents@, m.uvs@,
                        c.radius as int, n, f, a, b,
                    )
    &&& forall|f: int, x: int, y: int, r: int|
            0 <= f < 6 && 0 <= x < n - 1 && 0 <= y < n - 1 && 0 <= r < 6
                ==> m.indices@[#[trigger] tri_flat_pos(n, f, x, y, r)] as int
                    == tri_index_val(n, f, x, y, r)
    &&& forall|k: int|
            0 <= k < m.indices@.len() ==> (#[trigger] m.indices@[k]) < 6 * n * n
    &&& forall|t: int|
            0 <= t < 12 * (n - 1) * (n - 1)
                ==> #[trigger] triangle_distinct(m.indices@, 0, t)
    &&& forall|k: int|
            0 <= k < m.uvs@.len()
                ==> 0 <= (#[trigger] m.uvs@[k])@[0] <= FIXED_ONE
                    && 0 <= m.uvs@[k]@[1] <= FIXED_ONE
}

impl CubeSphere {
    /// Build the mesh this configuration describes: `6n²` vertices (one per
    /// grid sample of each face) and `36(n-1)²` triangle corners.
    /// Construction fails exactly on resolutions outside `[2, 103]`, before
    /// any buffer is allocated.
    pub fn build(&self) -> (out: Result<MeshData, MeshError>)
        requires
            0 < self.radius <= MAX_RADIUS,
        ensures
            out is Err <==> (self.resolution < 2 || self.resolution > 103),
            out matches Err(e) ==> e == MeshError::InvalidResolution,
            out matches Ok(m) ==> mesh_complete(m, *self),
    {
        if self.resolution < 2 || self.resolution > 103 {
            return Err(MeshError::InvalidResolution);
        }
        let n = self.resolution;
        let ghost nn: int = n as int;
        let ghost rad: int = self.radius as int;
        let mut points: Vec<[i64; 3]> = Vec::new();
        let mut normals: Vec<[i64; 3]> = Vec::new();
        let mut tangents: Vec<[i64; 4]> = Vec::new();
        let mut uvs: Vec<[i64; 2]> = Vec::new();
        let mut f: usize = 0;
        while f < 6
            invariant
                2 <= n <= 103,
                nn == n as int,
                rad == self.radius as int,
                0 < self.radius <= MAX_RADIUS,
                f <= 6,
                points@.len() == f * nn * nn,
                normals@.len() == f * nn * nn,
                tangents@.len() == f * nn * nn,
                uvs@.len() == f * nn * nn,
                forall|f1: int, a1: int, b1: int|
                    0 <= f1 < 6 && 0 <= a1 < nn && 0 <= b1 < nn
                        && vertex_index_spec(nn, f1, a1, b1) < points@.len()
                        ==> #[trigger] vertex_ok(
                                points@, normals@, tangents@, uvs@, rad, nn, f1, a1, b1),
                forall|k: int|
                    0 <= k < uvs@.len()
                        ==> 0 <= (#[trigger] uvs@[k])@[0] <= FIXED_ONE
                            && 0 <= uvs@[k]@[1] <= FIXED_ONE,
            decreases 6 - f,
        {
            let face = face_from_index(f);
            proof {
                assert(0 * nn == 0) by (nonlinear_arith);
            }
            let mut a: usize = 0;
            while a < n
                invariant
                    2 <= n <= 103,
                    nn == n as int,
                    rad == self.radius as int,
                    0 < self.radius <= MAX_RADIUS,
                    f < 6,
                    a <= n,
                    face == face_of_index(f as int),
                    points@.len() == f * nn * nn + a * nn,
                    normals@.len() == f * nn * nn + a * nn,
                    tangents@.len() == f * nn * nn + a * nn,
                    uvs@.len() == f * nn * nn + a * nn,
                    forall|f1: int, a1: int, b1: int|
                        0 <= f1 < 6 && 0 <= a1 < nn && 0 <= b1 < nn
                            && vertex_index_spec(nn, f1, a1, b1) < points@.len()
                            ==> #[trigger] vertex_ok(
                                    points@, normals@, tangents@, uvs@, rad, nn, f1, a1, b1),
                    forall|k: int|
                        0 <= k < uvs@.len()
                            ==> 0 <= (#[trigger] uvs@[k])@[0] <= FIXED_ONE
                                && 0 <= uvs@[k]@[1] <= FIXED_ONE,
                decreases n - a,
            {
                let mut b: usize = 0;
                while b < n
                    invariant
                        2 <= n <= 103,
                        nn == n as int,
                        rad == self.radius as int,
                        0 < self.radius <= MAX_RADIUS,
                        f < 6,
                        a < n,
                        b <= n,
                        face == face_of_index(f as int),
                        points@.len() == f * nn * nn + a * nn + b,
                        normals@.len() == f * nn * nn + a * nn + b,
                        tangents@.len() == f * nn * nn + a * nn + b,
                        uvs@.len() == f * nn * nn + a * nn + b,
                        forall|f1: int, a1: int, b1: int|
                            0 <= f1 < 6 && 0 <= a1 < nn && 0 <= b1 < nn
                                && vertex_index_spec(nn, f1, a1, b1) < points@.len()
                                ==> #[trigger] vertex_ok(
                                        points@, normals@, tangents@, uvs@, rad, nn, f1, a1, b1),
                        forall|k: int|
                            0 <= k < uvs@.len()
                                ==> 0 <= (#[trigger] uvs@[k])@[0] <= FIXED_ONE
                                    && 0 <= uvs@[k]@[1] <= FIXED_ONE,
                    decreases n - b,
                {
                    let cp = cube_point_at(face, n, a, b);
                    let ghost p0 = points@;
                    let ghost n0 = normals@;
                    let ghost t0 = tangents@;
                    let ghost u0 = uvs@;
                    insert_attributes(
                        &cp,
                        self.radius,
                        face,
                        &mut points,
                        &mut normals,
                        &mut tangents,
                        &mut uvs,
                    );
                    proof {
                        let len0 = p0.len() as int;
                        assert(len0 == vertex_index_spec(nn, f as int, a as int, b as int));
                        assert(vertex_ok(
                            points@, normals@, tangents@, uvs@, rad, nn,
                            f as int, a as int, b as int));
                        assert forall|f1: int, a1: int, b1: int|
                            0 <= f1 < 6 && 0 <= a1 < nn && 0 <= b1 < nn
                                && vertex_index_spec(nn, f1, a1, b1) < points@.len()
                            implies #[trigger] vertex_ok(
                                points@, normals@, tangents@, uvs@, rad, nn, f1, a1, b1) by {
                            if vertex_index_spec(nn, f1, a1, b1) < len0 {
                                assert(vertex_ok(p0, n0, t0, u0, rad, nn, f1, a1, b1));
                            } else {
                                lemma_vertex_index_injective(
                                    nn, f1, a1, b1, f as int, a as int, b as int);
                            }
                        }
                    }
                    b = b + 1;
                }
                proof {
                    assert(f * nn * nn + (a as int) * nn + nn
                        == f * nn * nn + ((a as int) + 1) * nn) by (nonlinear_arith);
                }
                a = a + 1;
            }
            proof {
                assert(f * nn * nn + nn * nn == ((f as int) + 1) * nn * nn) by (nonlinear_arith);
            }
            f = f + 1;
        }
        proof {
            assert(points@.len() == 6 * nn * nn);
            assert forall|f1: int, a1: int, b1: int|
                0 <= f1 < 6 && 0 <= a1 < nn && 0 <= b1 < nn
                implies vertex_index_spec(nn, f1, a1, b1) < points@.len() by {
                lemma_vertex_index_range(nn, f1, a1, b1);
            }
        }
        let mut indices: Vec<u32> = Vec::new();
        insert_indices(n as u32, &mut indices);
        Ok(MeshData { points, normals, tangents, uvs, indices })
    }
}

} // verus!
