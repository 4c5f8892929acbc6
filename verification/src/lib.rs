//! A software 3D renderer with two pipelines: a recursive ray tracer over
//! sphere primitives (Phong shading, hard shadows, reflections) and a polygon
//! rasterizer (perspective projection with frustum clipping of triangle
//! meshes).
//!
//! All geometry is carried in fixed-point scalars ([`fixed`]): 64-bit signed
//! integers counting millionths of a unit, with saturating arithmetic. Every
//! operation has an exact contract, so the shading and clipping results are
//! pinned down bit for bit. Drawing to an actual pixel buffer (and encoding
//! it to a file) is left to the caller; the library hands back colors and
//! projected triangles as plain values.

pub mod camera;
pub mod canvas;
pub mod color;
pub mod fixed;
pub mod light;
pub mod mat4;
pub mod rasterizer;
pub mod scene;
pub mod sphere;
pub mod vec3;
