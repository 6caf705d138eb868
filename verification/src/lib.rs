//! Heightmap terrain meshing and a first-person camera motion model.
//!
//! The library turns a 16-bit grayscale height image into a renderer-agnostic
//! triangle mesh (two styles: a smooth shared-vertex grid and a blocky
//! per-cell face set), and integrates per-frame camera input into a camera
//! pose. All geometry is kept in exact fixed-point grid units; a host
//! adapter scales it to world space.

pub mod camera;
pub mod heightmap;
pub mod mesh;
pub mod terrain;
