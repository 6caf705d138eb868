//! The terrain mesh builder.
//!
//! Walks the height grid and emits one of two mesh styles:
//!
//! * `Smooth` — one shared vertex per grid cell, two counter-clockwise
//!   triangles per interior quad, all normals straight up, no texture
//!   coordinates: `W*H` vertices and `6*(W-1)*(H-1)` indices.
//! * `Blocks` — twelve independent vertices per cell (a top face, a right
//!   drop face and a down-facing drop face, no vertex welding between
//!   cells): `12*W*H` vertices and `18*W*H` indices, each triangle
//!   referencing only its own cell's vertex block.
//!
//! Every vertex, normal, texture coordinate and index of the output is
//! pinned down pointwise by the builder contracts.

use crate::heightmap::{sample_vertex_height, HeightImage};
use crate::mesh::{MeshBuffer, MeshStyle, Normal, Uv, Vertex};
use vstd::arithmetic::div_mod::{
    lemma_fundamental_div_mod_converse_div, lemma_fundamental_div_mod_converse_mod,
    lemma_mod_bound, lemma_mod_multiples_basic,
};
use vstd::prelude::*;

verus! {

/// A vertex from grid units: `x`, `z` are grid coordinates, `y` a
/// fixed-point height.
pub open spec fn grid_vertex(x: int, y: int, z: int) -> Vertex {
    Vertex { x: x as u32, y: y as u32, z: z as u32 }
}

/// The straight-up unit normal.
pub open spec fn up_normal() -> Normal {
    Normal { x: 0, y: 1, z: 0 }
}

/// `c + 1`, clamped to `bound`.
pub open spec fn step_clamped(c: int, bound: int) -> int {
    if c + 1 <= bound {
        c + 1
    } else {
        bound
    }
}

/// The smoothed height at a cell's own grid point.
pub open spec fn cell_height(img: HeightImage, cy: int, cx: int) -> int {
    img.spec_sample(cy, cx)
}

/// The smoothed height one row down, clamped to the row bound.
pub open spec fn cell_height_down(img: HeightImage, cy: int, cx: int) -> int {
    img.spec_sample(step_clamped(cy, img.spec_height()), cx)
}

/// The smoothed height one column right, clamped to the column bound.
pub open spec fn cell_height_right(img: HeightImage, cy: int, cx: int) -> int {
    img.spec_sample(cy, step_clamped(cx, img.spec_width()))
}

/// Sign of the right drop face's normal: it points away from the higher
/// side (+1 exactly when the cell is higher than its right neighbour).
pub open spec fn right_face_sign(img: HeightImage, cy: int, cx: int) -> i8 {
    if cell_height(img, cy, cx) > cell_height_right(img, cy, cx) {
        1
    } else {
        -1i8
    }
}

/// Sign of the down-facing drop face's normal, by the same rule.
pub open spec fn down_face_sign(img: HeightImage, cy: int, cx: int) -> i8 {
    if cell_height(img, cy, cx) > cell_height_down(img, cy, cx) {
        1
    } else {
        -1i8
    }
}

/// Vertex `i` of the smooth grid: row-major, one vertex per cell, at the
/// cell's grid coordinates and sampled height.
pub open spec fn smooth_vertex_at(img: HeightImage, i: int) -> Vertex {
    let w = img.spec_width();
    grid_vertex(i % w, img.spec_sample(i / w, i % w), i / w)
}

/// Index `j` of the smooth grid: interior quads in row-major order, each
/// contributing the two triangles `{v, v+W+1, v+1}` and `{v, v+W, v+W+1}`
/// where `v` is the quad's top-left vertex.
pub open spec fn smooth_index_at(img: HeightImage, j: int) -> int {
    let w = img.spec_width();
    let q = j / 6;
    let k = j % 6;
    let cy = q / (w - 1);
    let cx = q % (w - 1);
    let v = cy * w + cx;
    if k == 0 {
        v
    } else if k == 1 {
        v + w + 1
    } else if k == 2 {
        v + 1
    } else if k == 3 {
        v
    } else if k == 4 {
        v + w
    } else {
        v + w + 1
    }
}

/// Vertex `i` of the block mesh: cells in row-major order, each a block of
/// 12 vertices — 4 for the top face, 4 for the right drop face, 4 for the
/// down-facing drop face.
pub open spec fn block_vertex_at(img: HeightImage, i: int) -> Vertex {
    let w = img.spec_width();
    let cell = i / 12;
    let k = i % 12;
    let cy = cell / w;
    let cx = cell % w;
    let h = cell_height(img, cy, cx);
    let hd = cell_height_down(img, cy, cx);
    let hr = cell_height_right(img, cy, cx);
    if k == 0 {
        grid_vertex(cx, h, cy)
    } else if k == 1 {
        grid_vertex(cx + 1, h, cy)
    } else if k == 2 {
        grid_vertex(cx, h, cy + 1)
    } else if k == 3 {
        grid_vertex(cx + 1, h, cy + 1)
    } else if k == 4 {
        grid_vertex(cx + 1, h, cy)
    } else if k == 5 {
        grid_vertex(cx + 1, h, cy + 1)
    } else if k == 6 {
        grid_vertex(cx + 1, hr, cy)
    } else if k == 7 {
        grid_vertex(cx + 1, hr, cy + 1)
    } else if k == 8 {
        grid_vertex(cx, h, cy + 1)
    } else if k == 9 {
        grid_vertex(cx + 1, h, cy + 1)
    } else if k == 10 {
        grid_vertex(cx, hd, cy + 1)
    } else {
        grid_vertex(cx + 1, hd, cy + 1)
    }
}

/// Normal of vertex `i` of the block mesh: up on the top face, an axis
/// normal pointing away from the higher side on the two drop faces.
pub open spec fn block_normal_at(img: HeightImage, i: int) -> Normal {
    let w = img.spec_width();
    let cell = i / 12;
    let k = i % 12;
    let cy = cell / w;
    let cx = cell % w;
    if k < 4 {
        up_normal()
    } else if k < 8 {
        Normal { x: right_face_sign(img, cy, cx), y: 0, z: 0 }
    } else {
        Normal { x: 0, y: 0, z: down_face_sign(img, cy, cx) }
    }
}

/// Texture coordinate of vertex `i` of the block mesh.
pub open spec fn block_uv_at(i: int) -> Uv {
    let k = i % 12;
    if k == 0 {
        Uv { u: 0, v: 0 }
    } else if k == 1 {
        Uv { u: 1, v: 0 }
    } else if k == 2 {
        Uv { u: 0, v: 1 }
    } else if k == 3 {
        Uv { u: 1, v: 1 }
    } else if k == 4 {
        Uv { u: 1, v: 0 }
    } else if k == 5 {
        Uv { u: 0, v: 0 }
    } else if k == 6 {
        Uv { u: 1, v: 1 }
    } else if k == 7 {
        Uv { u: 0, v: 1 }
    } else if k == 8 {
        Uv { u: 0, v: 0 }
    } else if k == 9 {
        Uv { u: 1, v: 0 }
    } else if k == 10 {
        Uv { u: 0, v: 1 }
    } else {
        Uv { u: 1, v: 1 }
    }
}

/// Which of its cell's 12 vertices the `t`-th index slot of a cell's 18
/// index slots references (6 per face, two triangles each).
pub open spec fn block_offset(t: int) -> int {
    if t == 0 {
        0
    } else if t == 1 {
        3
    } else if t == 2 {
        1
    } else if t == 3 {
        0
    } else if t == 4 {
        2
    } else if t == 5 {
        3
    } else if t == 6 {
        4
    } else if t == 7 {
        5
    } else if t == 8 {
        7
    } else if t == 9 {
        4
    } else if t == 10 {
        7
    } else if t == 11 {
        6
    } else if t == 12 {
        8
    } else if t == 13 {
        10
    } else if t == 14 {
        11
    } else if t == 15 {
        8
    } else if t == 16 {
        11
    } else {
        9
    }
}

/// Index `j` of the block mesh: 18 indices per cell, all referencing the
/// cell's own 12-vertex block.
pub open spec fn block_index_at(j: int) -> int {
    12 * (j / 18) + block_offset(j % 18)
}

/// The mesh is the smooth grid of the image: `W*H` shared vertices,
/// straight-up normals, no texture coordinates, and `6*(W-1)*(H-1)`
/// indices forming two triangles per interior quad, every index in range.
pub open spec fn is_smooth_grid_mesh(img: HeightImage, m: MeshBuffer) -> bool {
    let w = img.spec_width();
    let h = img.spec_height();
    &&& m.positions@.len() == w * h
    &&& m.normals@.len() == w * h
    &&& m.uvs@.len() == 0
    &&& m.indices@.len() == 6 * ((w - 1) * (h - 1))
    &&& forall|i: int|
        0 <= i < m.positions@.len() ==> (#[trigger] m.positions@[i]) == smooth_vertex_at(
            img,
            i,
        )
    &&& forall|i: int| 0 <= i < m.normals@.len() ==> (#[trigger] m.normals@[i]) == up_normal()
    &&& forall|j: int|
        0 <= j < m.indices@.len() ==> (#[trigger] m.indices@[j]) == smooth_index_at(img, j)
    &&& forall|j: int| 0 <= j < m.indices@.len() ==> (#[trigger] m.indices@[j]) < w * h
}

/// The mesh is the block mesh of the image: 12 vertices and 18 indices per
/// cell, with per-face normals and texture coordinates, and every index
/// referencing a vertex of its own cell's 12-vertex block.
pub open spec fn is_block_faces_mesh(img: HeightImage, m: MeshBuffer) -> bool {
    let w = img.spec_width();
    let h = img.spec_height();
    &&& m.positions@.len() == 12 * (w * h)
    &&& m.normals@.len() == 12 * (w * h)
    &&& m.uvs@.len() == 12 * (w * h)
    &&& m.indices@.len() == 18 * (w * h)
    &&& forall|i: int|
        0 <= i < m.positions@.len() ==> (#[trigger] m.positions@[i]) == block_vertex_at(
            img,
            i,
        )
    &&& forall|i: int|
        0 <= i < m.normals@.len() ==> (#[trigger] m.normals@[i]) == block_normal_at(img, i)
    &&& forall|i: int| 0 <= i < m.uvs@.len() ==> (#[trigger] m.uvs@[i]) == block_uv_at(i)
    &&& forall|j: int|
        0 <= j < m.indices@.len() ==> (#[trigger] m.indices@[j]) == block_index_at(j)
    &&& forall|j: int|
        0 <= j < m.indices@.len() ==> 12 * (j / 18) <= (#[trigger] m.indices@[j]) < 12 * (j
            / 18) + 12
}

proof fn lemma_cell_in_grid(cy: int, cx: int, w: int, h: int)
    requires
        0 <= cy < h,
        0 <= cx < w,
    ensures
        0 <= cy * w + cx < w * h,
{
    assert(cy * w + cx < w * h) by (nonlinear_arith)
        requires
            0 <= cy < h,
            0 <= cx < w,
    ;
}

proof fn lemma_quad_vertex_bound(cy: int, cx: int, w: int, h: int)
    requires
        0 <= cy <= h - 2,
        0 <= cx <= w - 2,
    ensures
        cy * w + cx + w + 1 < w * h,
{
    assert(cy * w + cx + w + 1 < w * h) by (nonlinear_arith)
        requires
            0 <= cy <= h - 2,
            0 <= cx <= w - 2,
    ;
}

/// Splits a slot number `s * cell + r` of a row-major cell walk back into
/// its cell and in-cell offset, and the cell into its row and column.
proof fn lemma_slot_decompose(cell: int, s: int, r: int, w: int, cy: int, cx: int)
    requires
        0 < s,
        0 <= r < s,
        0 < w,
        0 <= cx < w,
        0 <= cy,
        cell == cy * w + cx,
    ensures
        (s * cell + r) / s == cell,
        (s * cell + r) % s == r,
        cell / w == cy,
        cell % w == cx,
{
    assert(s * cell + r == cell * s + r) by (nonlinear_arith);
    lemma_fundamental_div_mod_converse_div(s * cell + r, s, cell, r);
    lemma_fundamental_div_mod_converse_mod(s * cell + r, s, cell, r);
    lemma_fundamental_div_mod_converse_div(cell, w, cy, cx);
    lemma_fundamental_div_mod_converse_mod(cell, w, cy, cx);
}

/// Builds the smooth-grid mesh: one vertex per cell at the cell's sampled
/// height, an up normal per vertex, no texture coordinates, and two
/// triangles per interior quad. Degenerate grids (a single row or column)
/// yield their vertices and no triangles.
#[verifier::loop_isolation(false)]
pub fn build_smooth_grid(img: &HeightImage) -> (m: MeshBuffer)
    requires
        img.wf(),
        img.spec_width() * img.spec_height() <= u32::MAX,
    ensures
        m.wf(),
        is_smooth_grid_mesh(*img, m),
{
    let width: u32 = img.width();
    let height: u32 = img.height();
    let mut positions: Vec<Vertex> = Vec::new();
    let mut normals: Vec<Normal> = Vec::new();
    proof {
        assert(0 * (width as int) == 0) by (nonlinear_arith);
    }
    for cy in 0..height
        invariant
            positions@.len() == cy * width,
            normals@.len() == positions@.len(),
            forall|i: int|
                0 <= i < positions@.len() ==> positions@[i] == smooth_vertex_at(*img, i),
            forall|i: int| 0 <= i < normals@.len() ==> normals@[i] == up_normal(),
    {
        for cx in 0..width
            invariant
                positions@.len() == cy * width + cx,
                normals@.len() == positions@.len(),
                forall|i: int|
                    0 <= i < positions@.len() ==> positions@[i] == smooth_vertex_at(*img, i),
                forall|i: int| 0 <= i < normals@.len() ==> normals@[i] == up_normal(),
        {
            let h: u32 = sample_vertex_height(img, cy, cx);
            positions.push(Vertex { x: cx, y: h, z: cy });
            normals.push(Normal { x: 0, y: 1, z: 0 });
            proof {
                lemma_fundamental_div_mod_converse_div(
                    cy * width + cx,
                    width as int,
                    cy as int,
                    cx as int,
                );
                lemma_fundamental_div_mod_converse_mod(
                    cy * width + cx,
                    width as int,
                    cy as int,
                    cx as int,
                );
            }
        }
        proof {
            assert((cy as int + 1) * (width as int) == cy * width + width) by (nonlinear_arith);
        }
    }
    let mut indices: Vec<u32> = Vec::new();
    proof {
        assert((height as int) * (width as int) == (width as int) * (height as int))
            by (nonlinear_arith);
        assert(6 * (0 * ((width as int) - 1)) == 0) by (nonlinear_arith);
    }
    for cy in 0..height - 1
        invariant
            positions@.len() == width * height,
            indices@.len() == 6 * (cy * (width - 1)),
            forall|j: int|
                0 <= j < indices@.len() ==> indices@[j] == smooth_index_at(*img, j),
            forall|j: int| 0 <= j < indices@.len() ==> indices@[j] < width * height,
    {
        for cx in 0..width - 1
            invariant
                positions@.len() == width * height,
                indices@.len() == 6 * (cy * (width - 1) + cx),
                forall|j: int|
                    0 <= j < indices@.len() ==> indices@[j] == smooth_index_at(*img, j),
                forall|j: int| 0 <= j < indices@.len() ==> indices@[j] < width * height,
        {
            proof {
                lemma_quad_vertex_bound(cy as int, cx as int, width as int, height as int);
            }
            let v: u32 = cy * width + cx;
            let ghost q: int = cy * (width - 1) + cx;
            indices.push(v);
            indices.push(v + width + 1);
            indices.push(v + 1);
            indices.push(v);
            indices.push(v + width);
            indices.push(v + width + 1);
            proof {
                assert forall|j: int|
                    6 * q <= j < 6 * q + 6 implies indices@[j] == smooth_index_at(*img, j)
                    && indices@[j] < width * height by {
                    let r = j - 6 * q;
                    lemma_slot_decompose(q, 6, r, width as int - 1, cy as int, cx as int);
                }
                assert(6 * (q + 1) == 6 * q + 6) by (nonlinear_arith);
                assert(indices@.len() == 6 * (cy * (width - 1) + cx + 1));
            }
        }
        proof {
            assert(6 * ((cy as int + 1) * ((width as int) - 1)) == 6 * (cy * (width - 1) + (
            width - 1))) by (nonlinear_arith);
        }
    }
    proof {
        assert(indices@.len() == 6 * (((width as int) - 1) * ((height as int) - 1)))
            by (nonlinear_arith)
            requires
                indices@.len() == 6 * (((height as int) - 1) * ((width as int) - 1)),
        ;
        assert(indices@.len() % 3 == 0) by {
            lemma_mod_multiples_basic(2 * (((width as int) - 1) * ((height as int) - 1)), 3);
            assert(6 * (((width as int) - 1) * ((height as int) - 1)) == (2 * (((width as int)
                - 1) * ((height as int) - 1))) * 3) by (nonlinear_arith);
        }
    }
    MeshBuffer { positions, normals, uvs: Vec::new(), indices }
}

/// Builds the block mesh: for each cell, a flat top face at the cell's
/// sampled height, a right drop face spanning to the right neighbour's
/// height and a down-facing drop face spanning to the lower neighbour's
/// height, as 12 unshared vertices and 6 triangles whose indices stay
/// within the cell's own vertex block.
#[verifier::loop_isolation(false)]
#[verifier::rlimit(80)]
pub fn build_block_faces(img: &HeightImage) -> (m: MeshBuffer)
    requires
        img.wf(),
        12 * (img.spec_width() * img.spec_height()) <= u32::MAX,
    ensures
        m.wf(),
        is_block_faces_mesh(*img, m),
{
    let width: u32 = img.width();
    let height: u32 = img.height();
    let mut positions: Vec<Vertex> = Vec::new();
    let mut normals: Vec<Normal> = Vec::new();
    let mut uvs: Vec<Uv> = Vec::new();
    let mut indices: Vec<u32> = Vec::new();
    proof {
        assert(12 * (0 * (width as int)) == 0 && 18 * (0 * (width as int)) == 0)
            by (nonlinear_arith);
    }
    for cy in 0..height
        invariant
            positions@.len() == 12 * (cy * width),
            normals@.len() == positions@.len(),
            uvs@.len() == positions@.len(),
            indices@.len() == 18 * (cy * width),
            forall|i: int|
                0 <= i < positions@.len() ==> positions@[i] == block_vertex_at(*img, i),
            forall|i: int|
                0 <= i < normals@.len() ==> normals@[i] == block_normal_at(*img, i),
            forall|i: int| 0 <= i < uvs@.len() ==> uvs@[i] == block_uv_at(i),
            forall|j: int| 0 <= j < indices@.len() ==> indices@[j] == block_index_at(j),
            forall|j: int| 0 <= j < indices@.len() ==> indices@[j] < positions@.len(),
    {
        for cx in 0..width
            invariant
                positions@.len() == 12 * (cy * width + cx),
                normals@.len() == positions@.len(),
                uvs@.len() == positions@.len(),
                indices@.len() == 18 * (cy * width + cx),
                forall|i: int|
                    0 <= i < positions@.len() ==> positions@[i] == block_vertex_at(*img, i),
                forall|i: int|
                    0 <= i < normals@.len() ==> normals@[i] == block_normal_at(*img, i),
                forall|i: int| 0 <= i < uvs@.len() ==> uvs@[i] == block_uv_at(i),
                forall|j: int| 0 <= j < indices@.len() ==> indices@[j] == block_index_at(j),
                forall|j: int| 0 <= j < indices@.len() ==> indices@[j] < positions@.len(),
        {
            let ghost cell: int = cy * width + cx;
            proof {
                lemma_cell_in_grid(cy as int, cx as int, width as int, height as int);
                assert(12 * cell + 12 <= 12 * ((width as int) * (height as int)))
                    by (nonlinear_arith)
                    requires
                        cell + 1 <= (width as int) * (height as int),
                ;
                assert(18 * cell + 18 <= 18 * ((width as int) * (height as int)))
                    by (nonlinear_arith)
                    requires
                        cell + 1 <= (width as int) * (height as int),
                ;
            }
            let h: u32 = sample_vertex_height(img, cy, cx);
            let hd: u32 = sample_vertex_height(img, cy + 1, cx);
            let hr: u32 = sample_vertex_height(img, cy, cx + 1);
            let vbase: u32 = (positions.len() as u32);
            // top face
            positions.push(Vertex { x: cx, y: h, z: cy });
            positions.push(Vertex { x: cx + 1, y: h, z: cy });
            positions.push(Vertex { x: cx, y: h, z: cy + 1 });
            positions.push(Vertex { x: cx + 1, y: h, z: cy + 1 });
            // right drop face
            positions.push(Vertex { x: cx + 1, y: h, z: cy });
            positions.push(Vertex { x: cx + 1, y: h, z: cy + 1 });
            positions.push(Vertex { x: cx + 1, y: hr, z: cy });
            positions.push(Vertex { x: cx + 1, y: hr, z: cy + 1 });
            // down-facing drop face
            positions.push(Vertex { x: cx, y: h, z: cy + 1 });
            positions.push(Vertex { x: cx + 1, y: h, z: cy + 1 });
            positions.push(Vertex { x: cx, y: hd, z: cy + 1 });
            positions.push(Vertex { x: cx + 1, y: hd, z: cy + 1 });
            proof {
                assert(positions@.len() == 12 * cell + 12);
                assert forall|i: int|
                    12 * cell <= i < 12 * cell + 12 implies positions@[i] == block_vertex_at(
                    *img,
                    i,
                ) by {
                    let r = i - 12 * cell;
                    lemma_slot_decompose(cell, 12, r, width as int, cy as int, cx as int);
                }
            }
            let d: i8 = if h > hr {
                1
            } else {
                -1
            };
            let dd: i8 = if h > hd {
                1
            } else {
                -1
            };
            normals.push(Normal { x: 0, y: 1, z: 0 });
            normals.push(Normal { x: 0, y: 1, z: 0 });
            normals.push(Normal { x: 0, y: 1, z: 0 });
            normals.push(Normal { x: 0, y: 1, z: 0 });
            normals.push(Normal { x: d, y: 0, z: 0 });
            normals.push(Normal { x: d, y: 0, z: 0 });
            normals.push(Normal { x: d, y: 0, z: 0 });
            normals.push(Normal { x: d, y: 0, z: 0 });
            normals.push(Normal { x: 0, y: 0, z: dd });
            normals.push(Normal { x: 0, y: 0, z: dd });
            normals.push(Normal { x: 0, y: 0, z: dd });
            normals.push(Normal { x: 0, y: 0, z: dd });
            proof {
                assert forall|i: int|
                    12 * cell <= i < 12 * cell + 12 implies normals@[i] == block_normal_at(
                    *img,
                    i,
                ) by {
                    let r = i - 12 * cell;
                    lemma_slot_decompose(cell, 12, r, width as int, cy as int, cx as int);
                }
            }
            uvs.push(Uv { u: 0, v: 0 });
            uvs.push(Uv { u: 1, v: 0 });
            uvs.push(Uv { u: 0, v: 1 });
            uvs.push(Uv { u: 1, v: 1 });
            uvs.push(Uv { u: 1, v: 0 });
            uvs.push(Uv { u: 0, v: 0 });
            uvs.push(Uv { u: 1, v: 1 });
            uvs.push(Uv { u: 0, v: 1 });
            uvs.push(Uv { u: 0, v: 0 });
            uvs.push(Uv { u: 1, v: 0 });
            uvs.push(Uv { u: 0, v: 1 });
            uvs.push(Uv { u: 1, v: 1 });
            proof {
                assert forall|i: int|
                    12 * cell <= i < 12 * cell + 12 implies uvs@[i] == block_uv_at(i) by {
                    let r = i - 12 * cell;
                    lemma_slot_decompose(cell, 12, r, width as int, cy as int, cx as int);
                }
            }
            indices.push(vbase);
            indices.push(vbase + 3);
            indices.push(vbase + 1);
            indices.push(vbase);
            indices.push(vbase + 2);
            indices.push(vbase + 3);
            indices.push(vbase + 4);
            indices.push(vbase + 5);
            indices.push(vbase + 7);
            indices.push(vbase + 4);
            indices.push(vbase + 7);
            indices.push(vbase + 6);
            indices.push(vbase + 8);
            indices.push(vbase + 10);
            indices.push(vbase + 11);
            indices.push(vbase + 8);
            indices.push(vbase + 11);
            indices.push(vbase + 9);
            proof {
                assert forall|j: int|
                    18 * cell <= j < 18 * cell + 18 implies indices@[j] == block_index_at(j)
                    && indices@[j] < positions@.len() by {
                    let t = j - 18 * cell;
                    lemma_slot_decompose(cell, 18, t, width as int, cy as int, cx as int);
                }
                assert(12 * (cell + 1) == 12 * cell + 12) by (nonlinear_arith);
                assert(18 * (cell + 1) == 18 * cell + 18) by (nonlinear_arith);
                assert(positions@.len() == 12 * (cy * width + cx + 1));
                assert(indices@.len() == 18 * (cy * width + cx + 1));
            }
        }
        proof {
            assert(12 * ((cy as int + 1) * (width as int)) == 12 * (cy * width + width))
                by (nonlinear_arith);
            assert(18 * ((cy as int + 1) * (width as int)) == 18 * (cy * width + width))
                by (nonlinear_arith);
        }
    }
    proof {
        assert(indices@.len() % 3 == 0) by {
            lemma_mod_multiples_basic(6 * (width * height), 3);
            assert(18 * ((height as int) * width) == (6 * ((width as int) * height)) * 3)
                by (nonlinear_arith);
        }
        assert(positions@.len() == 12 * ((width as int) * height)) by (nonlinear_arith)
            requires
                positions@.len() == 12 * ((height as int) * width),
        ;
        assert(indices@.len() == 18 * ((width as int) * height)) by (nonlinear_arith)
            requires
                indices@.len() == 18 * ((height as int) * width),
        ;
        assert forall|j: int|
            0 <= j < indices@.len() implies 12 * (j / 18) <= (#[trigger] indices@[j]) < 12 * (j
            / 18) + 12 by {
            lemma_mod_bound(j, 18);
            assert(indices@[j] == block_index_at(j));
            assert(0 <= block_offset(j % 18) < 12);
        }
    }
    MeshBuffer { positions, normals, uvs, indices }
}

/// Builds the terrain mesh of the image in the requested style.
pub fn build_terrain_mesh(img: &HeightImage, style: MeshStyle) -> (m: MeshBuffer)
    requires
        img.wf(),
        style == MeshStyle::Smooth ==> img.spec_width() * img.spec_height() <= u32::MAX,
        style == MeshStyle::Blocks ==> 12 * (img.spec_width() * img.spec_height())
            <= u32::MAX,
    ensures
        m.wf(),
        style == MeshStyle::Smooth ==> is_smooth_grid_mesh(*img, m),
        style == MeshStyle::Blocks ==> is_block_faces_mesh(*img, m),
{
    match style {
        MeshStyle::Smooth => build_smooth_grid(img),
        MeshStyle::Blocks => build_block_faces(img),
    }
}

/// Degenerate-grid law: a single-row or single-column image still yields
/// one vertex per cell and no triangles in the smooth style.
pub proof fn lemma_smooth_grid_degenerate(img: HeightImage, m: MeshBuffer)
    requires
        img.wf(),
        is_smooth_grid_mesh(img, m),
        img.spec_width() == 1 || img.spec_height() == 1,
    ensures
        m.positions@.len() == img.spec_width() * img.spec_height(),
        m.indices@.len() == 0,
{
    let w = img.spec_width();
    let h = img.spec_height();
    if w == 1 {
        assert(6 * ((w - 1) * (h - 1)) == 0) by (nonlinear_arith)
            requires
                w == 1,
        ;
    } else {
        assert(6 * ((w - 1) * (h - 1)) == 0) by (nonlinear_arith)
            requires
                h == 1,
        ;
    }
}

/// Drop-face normal law: in the block mesh, the right drop face's normal
/// points along +x exactly when the cell's sampled height exceeds its
/// right neighbour's, else along -x; the down-facing drop face behaves the
/// same along z.
pub proof fn lemma_block_face_normal_direction(
    img: HeightImage,
    m: MeshBuffer,
    cy: int,
    cx: int,
    k: int,
)
    requires
        img.wf(),
        is_block_faces_mesh(img, m),
        0 <= cy < img.spec_height(),
        0 <= cx < img.spec_width(),
        0 <= k < 12,
    ensures
        k < 4 ==> m.normals@[12 * (cy * img.spec_width() + cx) + k] == up_normal(),
        4 <= k < 8 ==> m.normals@[12 * (cy * img.spec_width() + cx) + k] == (Normal {
            x: right_face_sign(img, cy, cx),
            y: 0,
            z: 0,
        }),
        8 <= k ==> m.normals@[12 * (cy * img.spec_width() + cx) + k] == (Normal {
            x: 0,
            y: 0,
            z: down_face_sign(img, cy, cx),
        }),
{
    let w = img.spec_width();
    let h = img.spec_height();
    let cell = cy * w + cx;
    lemma_cell_in_grid(cy, cx, w, h);
    lemma_slot_decompose(cell, 12, k, w, cy, cx);
    assert(12 * cell + k < 12 * (w * h)) by (nonlinear_arith)
        requires
            0 <= cell < w * h,
            0 <= k < 12,
    ;
    assert(m.normals@[12 * cell + k] == block_normal_at(img, 12 * cell + k));
}

} // verus!
