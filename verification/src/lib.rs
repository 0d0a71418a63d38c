//! Adapts stroked-path tessellation output into a renderable sprite mesh
//! bundle.
//!
//! The triangulation itself is done by an outside tessellator, and the
//! bundle is consumed by an outside rendering engine; both traffic in
//! binary32 scalars, which this crate carries as raw bit patterns (`u32`).
//! The crate owns the adaptation logic: padding a vertex buffer with
//! placeholder normals and texture coordinates, registering the derived
//! mesh with a mesh asset store, and assembling the sprite bundle with a
//! caller-supplied translation.

pub mod assets;
pub mod geometry;
pub mod mesh;
pub mod sprite;
