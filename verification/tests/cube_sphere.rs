//! End-to-end tests of the cube-sphere mesh builder and inverse locator,
//! checking the numerical properties in floating point after dividing the
//! fixed-point buffers by `FIXED_ONE`.

use cube_sphere::CubeFace;
use cube_sphere::CubeSphere;
use cube_sphere::FIXED_ONE;
use cube_sphere::MeshData;
use cube_sphere::MeshError;
use cube_sphere::UV_SPHERE_RADIUS;
use cube_sphere::insert_indices;
use cube_sphere::isqrt;
use cube_sphere::unit_sphere_point_to_tangent;
use cube_sphere::unit_sphere_point_to_uv;

fn to_f(v: i64) -> f64 {
    v as f64 / FIXED_ONE as f64
}

fn len3(v: &[i64; 3]) -> f64 {
    let x = to_f(v[0]);
    let y = to_f(v[1]);
    let z = to_f(v[2]);
    (x * x + y * y + z * z).sqrt()
}

fn build(radius: f64, resolution: usize) -> Result<MeshData, MeshError> {
    let sphere = CubeSphere {
        radius: (radius * FIXED_ONE as f64).round() as i64,
        resolution,
    };
    sphere.build()
}

#[test]
fn default_config() {
    let c = CubeSphere::default();
    assert_eq!(c.radius, FIXED_ONE);
    assert_eq!(c.resolution, 8);
}

#[test]
fn isqrt_exact_values() {
    assert_eq!(isqrt(0), 0);
    assert_eq!(isqrt(1), 1);
    assert_eq!(isqrt(2), 1);
    assert_eq!(isqrt(3), 1);
    assert_eq!(isqrt(4), 2);
    assert_eq!(isqrt(99_999_999_999_999), 9_999_999);
    assert_eq!(isqrt(100_000_000_000_000), 10_000_000);
}

#[test]
fn resolution_validation() {
    assert_eq!(build(1.0, 0).unwrap_err(), MeshError::InvalidResolution);
    assert_eq!(build(1.0, 1).unwrap_err(), MeshError::InvalidResolution);
    assert_eq!(build(1.0, 104).unwrap_err(), MeshError::InvalidResolution);
    assert!(build(1.0, 2).is_ok());
    let m = build(1.0, 103).unwrap();
    assert_eq!(m.points.len(), 6 * 103 * 103);
}

#[test]
fn res2_counts() {
    let m = build(1.0, 2).unwrap();
    assert_eq!(m.points.len(), 24);
    assert_eq!(m.normals.len(), 24);
    assert_eq!(m.tangents.len(), 24);
    assert_eq!(m.uvs.len(), 24);
    assert_eq!(m.indices.len(), 36);
}

#[test]
fn res2_exact_indices() {
    let m = build(1.0, 2).unwrap();
    let mut expected: Vec<u32> = Vec::new();
    for f in 0..6u32 {
        let i = 4 * f;
        expected.extend_from_slice(&[i, i + 2, i + 1, i + 1, i + 2, i + 3]);
    }
    assert_eq!(m.indices, expected);
}

#[test]
fn front_corner_normals_res2() {
    let m = build(1.0, 2).unwrap();
    let inv_sqrt3 = 1.0 / 3.0_f64.sqrt();
    for k in 0..4 {
        let n = &m.normals[k];
        assert!((to_f(n[0]).abs() - inv_sqrt3).abs() < 1e-5);
        assert!((to_f(n[1]).abs() - inv_sqrt3).abs() < 1e-5);
        assert!((to_f(n[2]) - inv_sqrt3).abs() < 1e-5, "front corner normal z");
    }
}

#[test]
fn normals_unit_length() {
    for (radius, res) in [(1.0, 2), (1.0, 3), (2.5, 8), (0.5, 5), (1.0, 17)] {
        let m = build(radius, res).unwrap();
        for n in &m.normals {
            assert!((len3(n) - 1.0).abs() < 1e-5, "normal length at res {res}");
        }
    }
}

#[test]
fn positions_at_radius() {
    for (radius, res) in [(1.0, 2), (1.0, 3), (2.5, 8), (0.5, 5), (1.0, 17)] {
        let m = build(radius, res).unwrap();
        let tol = 1e-5_f64.max(1e-5 * radius);
        for p in &m.points {
            assert!((len3(p) - radius).abs() < tol, "position radius at res {res}");
        }
    }
}

#[test]
fn positions_radius2_res8() {
    let m = build(2.0, 8).unwrap();
    for p in &m.points {
        assert!((len3(p) - 2.0).abs() < 1e-4);
    }
}

#[test]
fn uvs_in_unit_square() {
    for res in [2, 3, 8, 31] {
        let m = build(1.0, res).unwrap();
        for uv in &m.uvs {
            assert!(0 <= uv[0] && uv[0] <= FIXED_ONE);
            assert!(0 <= uv[1] && uv[1] <= FIXED_ONE);
        }
    }
}

#[test]
fn index_counts_and_bounds() {
    for res in [2usize, 3, 4, 9, 24] {
        let m = build(1.0, res).unwrap();
        let n = res as u32;
        assert_eq!(m.points.len(), 6 * res * res);
        assert_eq!(m.indices.len(), 36 * (res - 1) * (res - 1));
        for &ix in &m.indices {
            assert!(ix < 6 * n * n);
        }
    }
}

#[test]
fn triangles_match_grid_cells() {
    let res = 4u32;
    let m = build(1.0, res as usize).unwrap();
    let e = res - 1;
    let mut pos = 0usize;
    for f in 0..6u32 {
        for x in 0..e {
            for y in 0..e {
                let i = f * res * res + y * res + x;
                let expected = [i, i + res, i + 1, i + 1, i + res, i + res + 1];
                assert_eq!(&m.indices[pos..pos + 6], &expected);
                pos += 6;
            }
        }
    }
    assert_eq!(pos, m.indices.len());
}

#[test]
fn triangles_nondegenerate() {
    let m = build(1.0, 5).unwrap();
    for t in m.indices.chunks(3) {
        assert!(t[0] != t[1] && t[0] != t[2] && t[1] != t[2]);
    }
}

#[test]
fn insert_indices_appends() {
    let mut indices: Vec<u32> = Vec::new();
    insert_indices(3, &mut indices);
    assert_eq!(indices.len(), 36 * 2 * 2);
    for &ix in &indices {
        assert!(ix < 54);
    }
}

#[test]
fn tangents_orthogonal_and_unit() {
    let m = build(1.0, 8).unwrap();
    for (t, n) in m.tangents.iter().zip(m.normals.iter()) {
        assert_eq!(t[3], FIXED_ONE, "handedness is +1");
        let dot = to_f(t[0]) * to_f(n[0]) + to_f(t[1]) * to_f(n[1]) + to_f(t[2]) * to_f(n[2]);
        assert!(dot.abs() < 1e-5, "tangent orthogonal to normal");
        let tl = (to_f(t[0]).powi(2) + to_f(t[1]).powi(2) + to_f(t[2]).powi(2)).sqrt();
        assert!((tl - 1.0).abs() < 1e-5, "tangent unit length");
    }
}

#[test]
fn tangent_degenerate_pole_falls_back() {
    // Normal parallel to the side faces' Y reference: the cross product is
    // zero and the defined fallback is the world X axis.
    let t = unit_sphere_point_to_tangent(&[0, FIXED_ONE, 0], CubeFace::Front);
    assert_eq!(t, [FIXED_ONE, 0, 0, FIXED_ONE]);
}

#[test]
fn forward_uv_exact_values() {
    // scale(0) = R and scale(1) = 2R exactly, so the front face's center
    // column and corner have exact atlas coordinates.
    let uv = unit_sphere_point_to_uv(&[0, 0, FIXED_ONE], CubeFace::Front);
    assert_eq!(uv, [UV_SPHERE_RADIUS, FIXED_ONE - UV_SPHERE_RADIUS]);
    let uv = unit_sphere_point_to_uv(&[FIXED_ONE, FIXED_ONE, FIXED_ONE], CubeFace::Front);
    assert_eq!(uv, [2 * UV_SPHERE_RADIUS, FIXED_ONE - 2 * UV_SPHERE_RADIUS]);
}

#[test]
fn point_to_uvs_selects_faces_by_sign() {
    let pt = [0, 0, FIXED_ONE];
    let rows = CubeSphere::point_to_uvs(&pt);
    assert_eq!(rows[0], unit_sphere_point_to_uv(&pt, CubeFace::Left));
    assert_eq!(rows[1], unit_sphere_point_to_uv(&pt, CubeFace::Bottom));
    assert_eq!(rows[2], unit_sphere_point_to_uv(&pt, CubeFace::Front));

    let pt = [FIXED_ONE, 2_000_000, -3_000_000];
    let rows = CubeSphere::point_to_uvs(&pt);
    assert_eq!(rows[0], unit_sphere_point_to_uv(&pt, CubeFace::Right));
    assert_eq!(rows[1], unit_sphere_point_to_uv(&pt, CubeFace::Top));
    assert_eq!(rows[2], unit_sphere_point_to_uv(&pt, CubeFace::Back));
}

/// The center of a face's atlas square in emitted atlas coordinates (the
/// vertical axis grows downward from 1).
fn anchor_center(face: CubeFace) -> [i64; 2] {
    let c = cube_sphere::face_to_uv_coordinate(face);
    [c[0] + UV_SPHERE_RADIUS, FIXED_ONE - (c[1] + UV_SPHERE_RADIUS)]
}

#[test]
fn uv_to_face_classifies_anchor_centers() {
    for face in [
        CubeFace::Front,
        CubeFace::Back,
        CubeFace::Left,
        CubeFace::Right,
        CubeFace::Top,
        CubeFace::Bottom,
    ] {
        assert_eq!(CubeSphere::uv_to_face(&anchor_center(face)), face);
    }
}

#[test]
fn locate_at_face_centers() {
    // At each anchor center the face-local offsets are zero and the
    // located point is the face's outward unit axis.
    let cases = [
        (CubeFace::Front, [0.0, 0.0, 1.0]),
        (CubeFace::Back, [0.0, 0.0, -1.0]),
        (CubeFace::Left, [-1.0, 0.0, 0.0]),
        (CubeFace::Right, [1.0, 0.0, 0.0]),
        (CubeFace::Top, [0.0, 1.0, 0.0]),
        (CubeFace::Bottom, [0.0, -1.0, 0.0]),
    ];
    for (face, expected) in cases {
        let uv = anchor_center(face);
        let p = CubeSphere::uv_to_point(&uv).expect("center locates a point");
        for k in 0..3 {
            assert!((to_f(p[k]) - expected[k]).abs() < 1e-5, "{face:?} axis {k}");
        }
    }
}

#[test]
fn locate_outside_circle_is_none() {
    // A query far outside the atlas recovers face-local offsets with
    // u² + v² > 1, so no surface point exists.
    let uv = [3 * FIXED_ONE, UV_SPHERE_RADIUS];
    assert_eq!(CubeSphere::uv_to_point(&uv), None);
    assert_eq!(CubeSphere::uv_to_normal(&uv), None);
    assert_eq!(CubeSphere::uv_to_tangent(&uv), None);
}

#[test]
fn locate_normal_matches_point() {
    let uv = anchor_center(CubeFace::Front);
    assert_eq!(CubeSphere::uv_to_normal(&uv), CubeSphere::uv_to_point(&uv));
}

#[test]
fn locate_tangent_at_front_center() {
    // The point is (0, 0, 1); cross with the Y reference gives the -X axis.
    let uv = anchor_center(CubeFace::Front);
    let t = CubeSphere::uv_to_tangent(&uv).expect("center locates a tangent");
    assert!((to_f(t[0]) + 1.0).abs() < 1e-5);
    assert!(to_f(t[1]).abs() < 1e-5);
    assert!(to_f(t[2]).abs() < 1e-5);
    assert_eq!(t[3], FIXED_ONE);
}

#[test]
fn forward_uv_classifies_to_owning_face() {
    // Interior vertices of a face land well inside its atlas square, so
    // the nearest-center classification recovers the emitting face.
    let m = build(1.0, 8).unwrap();
    let n = 8usize;
    for (fi, face) in [
        CubeFace::Front,
        CubeFace::Back,
        CubeFace::Left,
        CubeFace::Right,
        CubeFace::Top,
        CubeFace::Bottom,
    ]
    .into_iter()
    .enumerate()
    {
        for a in 2..6 {
            for b in 2..6 {
                let uv = m.uvs[fi * n * n + a * n + b];
                assert_eq!(CubeSphere::uv_to_face(&uv), face);
            }
        }
    }
}

#[test]
fn locate_in_square_queries_are_some() {
    // Every query inside a face's atlas square keeps |u|, |v| at most R,
    // far inside the unit circle, so a point is always located.
    for face in [CubeFace::Front, CubeFace::Back, CubeFace::Top] {
        let c = cube_sphere::face_to_uv_coordinate(face);
        for du in [0, UV_SPHERE_RADIUS, 2 * UV_SPHERE_RADIUS] {
            for dv in [0, UV_SPHERE_RADIUS, 2 * UV_SPHERE_RADIUS] {
                let uv = [c[0] + du, FIXED_ONE - (c[1] + dv)];
                if CubeSphere::uv_to_face(&uv) == face {
                    assert!(CubeSphere::uv_to_point(&uv).is_some());
                }
            }
        }
    }
}
