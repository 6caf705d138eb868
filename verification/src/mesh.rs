//! The renderer-agnostic mesh buffer.
//!
//! Geometry stays in exact grid units: a vertex's `x` and `z` are grid
//! column and row numbers, and its `y` is a fixed-point height in units of
//! `HEIGHT_ONE` (see `heightmap`). A host adapter multiplies `x` and `z` by
//! the world-space cell side length and `y` by the world-space height
//! scale divided by `HEIGHT_ONE` to obtain float coordinates.

use vstd::prelude::*;

verus! {

/// A mesh vertex position: `x` and `z` in grid units, `y` a fixed-point
/// height in units of `HEIGHT_ONE`.
#[derive(Clone, Copy, Debug, PartialEq, Eq, Structural)]
pub struct Vertex {
    pub x: u32,
    pub y: u32,
    pub z: u32,
}

/// An axis-aligned unit normal; each component is -1, 0 or 1.
#[derive(Clone, Copy, Debug, PartialEq, Eq, Structural)]
pub struct Normal {
    pub x: i8,
    pub y: i8,
    pub z: i8,
}

/// A texture coordinate; each component is 0 or 1.
#[derive(Clone, Copy, Debug, PartialEq, Eq, Structural)]
pub struct Uv {
    pub u: u8,
    pub v: u8,
}

/// Which terrain mesh the builder emits.
#[derive(Clone, Copy, Debug, PartialEq, Eq, Structural)]
pub enum MeshStyle {
    /// One shared vertex per grid cell, two triangles per interior quad,
    /// all normals straight up, no texture coordinates.
    Smooth,
    /// Twelve independent vertices per cell: a top face, a right drop face
    /// and a down-facing drop face, with per-face axis normals and
    /// per-face texture coordinates.
    Blocks,
}

/// A triangle mesh: positions, optional per-vertex normals and texture
/// coordinates, and indices grouped in triples, each triple one triangle.
pub struct MeshBuffer {
    pub positions: Vec<Vertex>,
    pub normals: Vec<Normal>,
    pub uvs: Vec<Uv>,
    pub indices: Vec<u32>,
}

impl MeshBuffer {
    /// Well-formedness: indices come in triples and reference existing
    /// positions; normals and texture coordinates are parallel to the
    /// positions or absent.
    pub open spec fn wf(self) -> bool {
        self.indices@.len() % 3 == 0 && (forall|j: int|
            0 <= j < self.indices@.len() ==> self.indices@[j] < self.positions@.len()) && (
        self.normals@.len() == self.positions@.len() || self.normals@.len() == 0) && (
        self.uvs@.len() == self.positions@.len() || self.uvs@.len() == 0)
    }

    /// Number of vertices.
    pub fn vertex_count(&self) -> (n: usize)
        ensures
            n == self.positions@.len(),
    {
        self.positions.len()
    }

    /// Number of indices (three per triangle).
    pub fn index_count(&self) -> (n: usize)
        ensures
            n == self.indices@.len(),
    {
        self.indices.len()
    }
}

} // verus!
