use voxel_engine::chunk::{loc, Chunk, Tile, CHUNK_SIZE};

#[test]
fn new_chunk_is_empty() {
    let c = Chunk::new();
    for x in 0..CHUNK_SIZE {
        assert!(c.get([x, 0, 0]).is_none());
    }
    assert!(c.get([31, 31, 31]).is_none());
}

#[test]
fn set_then_get() {
    let mut c = Chunk::new();
    c.set([3, 4, 5], Some(Tile {}));
    assert!(c.get([3, 4, 5]).is_some());
    assert!(c.get([4, 3, 5]).is_none());
    assert!(c.get([5, 4, 3]).is_none());
    c.set([3, 4, 5], None);
    assert!(c.get([3, 4, 5]).is_none());
}

#[test]
fn loc_stays_in_range() {
    assert_eq!(loc([3, 4, 5], [1, 0, 0], 32), Some([4, 4, 5]));
    assert_eq!(loc([3, 4, 5], [0, -1, 1], 32), Some([3, 3, 6]));
    assert_eq!(loc([0, 0, 0], [-1, 0, 0], 32), None);
    assert_eq!(loc([31, 0, 0], [1, 0, 0], 32), None);
    assert_eq!(loc([0, 0, 31], [0, 0, 1], 32), None);
    assert_eq!(loc([0, 0, 0], [0, 0, 0], 1), Some([0, 0, 0]));
}

#[test]
fn empty_chunk_meshes_to_nothing() {
    let c = Chunk::new();
    let g = c.mesh([0, 0, 0]).build();
    assert_eq!(g.vertices.len(), 0);
    assert_eq!(g.indices.len(), 0);
}

#[test]
fn full_two_cube_meshes_outer_shell_only() {
    // A fully solid 2×2×2 chunk: every face between two occupied cells is
    // culled, leaving the 6×2² = 24 outer faces.
    let mut c = Chunk::with_size(2);
    for x in 0..2 {
        for y in 0..2 {
            for z in 0..2 {
                c.set([x, y, z], Some(Tile {}));
            }
        }
    }
    let g = c.mesh([0, 0, 0]).build();
    assert_eq!(g.vertices.len(), 96);
    assert_eq!(g.indices.len(), 144);
}

#[test]
fn single_cell_yields_six_faces_in_any_width() {
    for width in [1usize, 2, 5, 32] {
        let mut c = Chunk::with_size(width);
        c.set([0, 0, 0], Some(Tile {}));
        let g = c.mesh([0, 0, 0]).build();
        assert_eq!(g.vertices.len(), 24, "width {width}");
        assert_eq!(g.indices.len(), 36, "width {width}");
    }
}

#[test]
fn adjacent_cells_cull_their_shared_faces() {
    // Two cells touching along x: each loses the one face towards the
    // other, so 12 - 2 = 10 faces remain.
    let mut c = Chunk::with_size(4);
    c.set([1, 1, 1], Some(Tile {}));
    c.set([2, 1, 1], Some(Tile {}));
    let g = c.mesh([0, 0, 0]).build();
    assert_eq!(g.vertices.len(), 40);
    assert_eq!(g.indices.len(), 60);
}

#[test]
fn interior_cell_is_fully_culled() {
    // A 3×3×3 solid cube: the centre cell faces only occupied neighbours
    // and contributes nothing; the 26 shell cells contribute the 6×3² = 54
    // outer faces.
    let mut c = Chunk::with_size(3);
    for x in 0..3 {
        for y in 0..3 {
            for z in 0..3 {
                c.set([x, y, z], Some(Tile {}));
            }
        }
    }
    let g = c.mesh([0, 0, 0]).build();
    assert_eq!(g.vertices.len(), 54 * 4);
    assert_eq!(g.indices.len(), 54 * 6);
}

#[test]
fn mesh_offset_shifts_every_position() {
    let mut c = Chunk::with_size(1);
    c.set([0, 0, 0], Some(Tile {}));
    let plain = c.mesh([0, 0, 0]).build();
    let moved = c.mesh([100, -50, 3]).build();
    assert_eq!(plain.vertices.len(), moved.vertices.len());
    for (a, b) in plain.vertices.iter().zip(moved.vertices.iter()) {
        assert_eq!(b.x, a.x + 100);
        assert_eq!(b.y, a.y - 50);
        assert_eq!(b.z, a.z + 3);
        assert_eq!(b.u, a.u);
        assert_eq!(b.v, a.v);
        assert_eq!(b.nx, a.nx);
        assert_eq!(b.ny, a.ny);
        assert_eq!(b.nz, a.nz);
    }
    assert_eq!(plain.indices, moved.indices);
}

#[test]
fn single_cell_mesh_starts_with_top_face() {
    // The mesher walks directions in order top, bottom, left, right,
    // front, back; the top face's first template corner is (0, 1, 0) with
    // texture coordinate (0, 0) and normal +y.
    let mut c = Chunk::with_size(1);
    c.set([0, 0, 0], Some(Tile {}));
    let g = c.mesh([0, 0, 0]).build();
    let v0 = g.vertices[0];
    assert_eq!((v0.x, v0.y, v0.z), (0, 1, 0));
    assert_eq!((v0.u, v0.v), (0, 0));
    assert_eq!((v0.nx, v0.ny, v0.nz), (0, 1, 0));
    assert_eq!(&g.indices[0..6], &[0, 1, 2, 2, 1, 3]);
    assert_eq!(&g.indices[6..12], &[4, 5, 6, 6, 5, 7]);
}
