//! Verified core of an offline ray-tracing renderer.
//!
//! The renderer's geometry and radiance arithmetic run on floating-point
//! values, which stay outside this library; what stands here is the part of
//! the pipeline that works on plain integers, with its behaviour stated in
//! contracts: the screen descriptor, the exhaustive broad-phase candidate
//! protocol over shape indices, and the grouping of a mesh's flat vertex-index
//! buffer into triangles.

pub mod broadphase;
pub mod material;
pub mod mesh;
pub mod screen;
