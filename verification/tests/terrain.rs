use terrain_mesh::heightmap::{sample_vertex_height, HeightImage};
use terrain_mesh::mesh::MeshStyle;
use terrain_mesh::terrain::build_terrain_mesh;

fn image(width: u32, height: u32, data: Vec<u16>) -> HeightImage {
    HeightImage::new(width, height, data).unwrap()
}

#[test]
fn smooth_grid_sizes_and_indices() {
    // 3x2 grid of a uniform image: 6 vertices, 2 interior quads, 12 indices.
    let img = image(3, 2, vec![100; 6]);
    let m = build_terrain_mesh(&img, MeshStyle::Smooth);
    assert_eq!(m.vertex_count(), 6);
    assert_eq!(m.index_count(), 12);
    assert_eq!(m.normals.len(), 6);
    assert_eq!(m.uvs.len(), 0);
    // Quad (0,0): triangles {0, 4, 1} and {0, 3, 4}; quad (0,1) shifts by 1.
    assert_eq!(m.indices, vec![0, 4, 1, 0, 3, 4, 1, 5, 2, 1, 4, 5]);
    for &ix in &m.indices {
        assert!((ix as usize) < m.vertex_count());
    }
    for i in 0..6u32 {
        let v = m.positions[i as usize];
        assert_eq!(v.x, i % 3);
        assert_eq!(v.z, i / 3);
        assert_eq!(v.y, 12 * 100);
    }
    for n in &m.normals {
        assert_eq!((n.x, n.y, n.z), (0, 1, 0));
    }
}

#[test]
fn smooth_grid_heights_follow_sampler() {
    let img = image(2, 2, vec![100, 200, 300, 400]);
    let m = build_terrain_mesh(&img, MeshStyle::Smooth);
    for cy in 0..2u32 {
        for cx in 0..2u32 {
            let v = m.positions[(cy * 2 + cx) as usize];
            assert_eq!(v.y, sample_vertex_height(&img, cy, cx));
        }
    }
}

#[test]
fn smooth_grid_single_column_has_no_triangles() {
    let img = image(1, 5, vec![7; 5]);
    let m = build_terrain_mesh(&img, MeshStyle::Smooth);
    assert_eq!(m.vertex_count(), 5);
    assert_eq!(m.index_count(), 0);
}

#[test]
fn smooth_grid_single_row_has_no_triangles() {
    let img = image(4, 1, vec![7; 4]);
    let m = build_terrain_mesh(&img, MeshStyle::Smooth);
    assert_eq!(m.vertex_count(), 4);
    assert_eq!(m.index_count(), 0);
}

#[test]
fn block_mesh_sizes_and_cell_local_indices() {
    let img = image(2, 1, vec![1000, 0]);
    let m = build_terrain_mesh(&img, MeshStyle::Blocks);
    assert_eq!(m.vertex_count(), 12 * 2);
    assert_eq!(m.index_count(), 18 * 2);
    assert_eq!(m.normals.len(), 12 * 2);
    assert_eq!(m.uvs.len(), 12 * 2);
    // Every index stays inside its own cell's 12-vertex block.
    for (j, &ix) in m.indices.iter().enumerate() {
        let cell = (j / 18) as u32;
        assert!(12 * cell <= ix && ix < 12 * cell + 12);
    }
    // The per-cell index pattern of the three faces.
    let pattern: Vec<u32> = vec![0, 3, 1, 0, 2, 3, 4, 5, 7, 4, 7, 6, 8, 10, 11, 8, 11, 9];
    for (j, &ix) in m.indices.iter().enumerate() {
        let base = 12 * (j / 18) as u32;
        assert_eq!(ix, base + pattern[j % 18]);
    }
}

#[test]
fn block_mesh_vertices_of_one_cell() {
    let img = image(2, 1, vec![1000, 0]);
    let m = build_terrain_mesh(&img, MeshStyle::Blocks);
    let h = sample_vertex_height(&img, 0, 0);
    let hd = sample_vertex_height(&img, 1, 0);
    let hr = sample_vertex_height(&img, 0, 1);
    let expect = [
        (0, h, 0),
        (1, h, 0),
        (0, h, 1),
        (1, h, 1),
        (1, h, 0),
        (1, h, 1),
        (1, hr, 0),
        (1, hr, 1),
        (0, h, 1),
        (1, h, 1),
        (0, hd, 1),
        (1, hd, 1),
    ];
    for (k, &(x, y, z)) in expect.iter().enumerate() {
        let v = m.positions[k];
        assert_eq!((v.x, v.y, v.z), (x, y, z));
    }
    let uv_expect = [
        (0, 0),
        (1, 0),
        (0, 1),
        (1, 1),
        (1, 0),
        (0, 0),
        (1, 1),
        (0, 1),
        (0, 0),
        (1, 0),
        (0, 1),
        (1, 1),
    ];
    for (k, &(u, v)) in uv_expect.iter().enumerate() {
        assert_eq!((m.uvs[k].u, m.uvs[k].v), (u, v));
    }
}

#[test]
fn block_mesh_drop_face_normals_point_away_from_higher_side() {
    // Cell 0 is higher than its right neighbour: sample(0,0) = 12000,
    // sample(0,1) = 6 * (1000 + 0) = 6000.
    let img = image(2, 1, vec![1000, 0]);
    let m = build_terrain_mesh(&img, MeshStyle::Blocks);
    for k in 0..4 {
        assert_eq!((m.normals[k].x, m.normals[k].y, m.normals[k].z), (0, 1, 0));
    }
    for k in 4..8 {
        assert_eq!((m.normals[k].x, m.normals[k].y, m.normals[k].z), (1, 0, 0));
    }
    // The row below is clamped to the cell's own height: not higher, so -1.
    for k in 8..12 {
        assert_eq!((m.normals[k].x, m.normals[k].y, m.normals[k].z), (0, 0, -1));
    }
    // The reverse slope flips the right-face normal.
    let img2 = image(2, 1, vec![0, 1000]);
    let m2 = build_terrain_mesh(&img2, MeshStyle::Blocks);
    for k in 4..8 {
        assert_eq!(m2.normals[k].x, -1);
    }
    // Cell 1 of the rising image: its clamped right sample equals its own,
    // which is not strictly higher, so -1 as well.
    for k in 16..20 {
        assert_eq!(m2.normals[k].x, -1);
    }
}

#[test]
fn block_mesh_down_face_normal_follows_row_below() {
    // Two rows: the upper cell is higher than the cell below it.
    let img = image(1, 2, vec![1000, 0]);
    let m = build_terrain_mesh(&img, MeshStyle::Blocks);
    // Cell (0,0): h = 12000, hd = sample(1,0) = 6 * (1000 + 0) = 6000.
    for k in 8..12 {
        assert_eq!((m.normals[k].x, m.normals[k].y, m.normals[k].z), (0, 0, 1));
    }
}
