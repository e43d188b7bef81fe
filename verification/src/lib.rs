//! A cube-sphere mesh generator: the surface of a subdivided cube is warped
//! onto a sphere and emitted as a triangle mesh (positions, unit normals,
//! tangent frames, atlas texture coordinates, and a 32-bit index buffer),
//! together with an inverse query that maps an atlas coordinate back to a
//! point on the sphere.
//!
//! All geometry is carried in signed 64-bit fixed-point coordinates with
//! [`FIXED_ONE`] units to the real value 1.0, so that every arithmetic step
//! is exact integer work with a proved contract; a renderer divides by
//! [`FIXED_ONE`] to obtain floating-point buffers.

mod atlas;
mod face;
mod fixed;
mod locate;
mod mesh;
mod sphere;
mod warp;

pub use atlas::unit_sphere_point_to_uv;
pub use face::CubeFace;
pub use face::UV_SPHERE_RADIUS;
pub use face::face_to_uv_coordinate;
pub use fixed::FIXED_ONE;
pub use fixed::MAX_RADIUS;
pub use fixed::isqrt;
pub use locate::MAX_ATLAS_QUERY;
pub use mesh::MeshData;
pub use mesh::MeshError;
pub use mesh::insert_indices;
pub use mesh::lemma_cube_point_on_surface;
pub use sphere::CubeSphere;
pub use warp::exact_radicand_num;
pub use warp::lemma_scaled_point_norm;
pub use warp::lemma_warp_exact_unit_norm;
pub use warp::unit_cube_point_to_unit_sphere_point;
pub use warp::unit_sphere_point_to_normal;
pub use warp::unit_sphere_point_to_sphere_point;
pub use warp::unit_sphere_point_to_tangent;
