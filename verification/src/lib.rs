//! Tessellation of an axis-aligned ellipsoid into a latitude/longitude grid.
//!
//! The crate holds the discrete half of the tessellation: validation of the
//! shape and of the resolution, which grid samples make up the vertex buffer
//! and in what order, and how the quad cells of the grid are stitched into a
//! triangle list. Every function is verified against a mathematical model of
//! the grid. Positions, normals and texture coordinates are one per sample;
//! turning a sample into numbers of finite precision is left to the caller.

pub mod builder;
pub mod grid;
pub mod mesh;
pub mod options;
pub mod shape;
pub mod stitch;
pub mod triangles;
