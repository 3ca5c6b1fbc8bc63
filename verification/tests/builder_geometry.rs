use voxel_engine::builder::MeshBuilder;
use voxel_engine::vertex::{template_vertex, Vertex};

#[test]
fn empty_builder_builds_empty_geometry() {
    let g = MeshBuilder::new().build();
    assert_eq!(g.vertices.len(), 0);
    assert_eq!(g.indices.len(), 0);
}

#[test]
fn add_copies_the_template_translated() {
    let mut b = MeshBuilder::new();
    b.add([10, 20, 30], 3);
    let g = b.build();
    assert_eq!(g.vertices.len(), 4);
    assert_eq!(g.indices, vec![0, 1, 2, 2, 1, 3]);
    for i in 0..4 {
        let t = template_vertex(3, i);
        let v = g.vertices[i];
        assert_eq!(v.x, t.x + 10);
        assert_eq!(v.y, t.y + 20);
        assert_eq!(v.z, t.z + 30);
        assert_eq!((v.u, v.v), (t.u, t.v));
        assert_eq!((v.nx, v.ny, v.nz), (t.nx, t.ny, t.nz));
    }
}

#[test]
fn second_face_offsets_its_indices() {
    let mut b = MeshBuilder::new();
    b.add([0, 0, 0], 0);
    b.add([7, 0, 0], 1);
    let g = b.build();
    assert_eq!(g.vertices.len(), 8);
    assert_eq!(g.indices, vec![0, 1, 2, 2, 1, 3, 4, 5, 6, 6, 5, 7]);
}

#[test]
fn counts_stay_in_ratio() {
    // For any built geometry: four vertices per face, six indices per
    // face, so index count is 1.5 times vertex count.
    let mut b = MeshBuilder::new();
    b.add([0, 0, 0], 0);
    b.add_range([1, 0, 0], 2..5);
    let g = b.build();
    assert_eq!(g.vertices.len(), 4 * 4);
    assert_eq!(g.indices.len(), 6 * 4);
    assert_eq!(2 * g.indices.len(), 3 * g.vertices.len());
    for &i in &g.indices {
        assert!((i as usize) < g.vertices.len());
    }
}

#[test]
fn with_added_appends_the_whole_range() {
    let g = MeshBuilder::new().with_added([0, 0, 0], 0..6).build();
    assert_eq!(g.vertices.len(), 24);
    assert_eq!(g.indices.len(), 36);
}

#[test]
fn empty_range_adds_nothing() {
    let g = MeshBuilder::new().with_added([0, 0, 0], 2..2).build();
    assert_eq!(g.vertices.len(), 0);
    assert_eq!(g.indices.len(), 0);
}

#[test]
fn translate_shifts_every_position_and_nothing_else() {
    let before = MeshBuilder::new().with_added([0, 0, 0], 0..6).build();
    let mut b = MeshBuilder::new().with_added([0, 0, 0], 0..6);
    b.translate([5, -6, 7]);
    let g = b.build();
    assert_eq!(before.vertices.len(), g.vertices.len());
    assert_eq!(before.indices, g.indices);
    for (a, v) in before.vertices.iter().zip(g.vertices.iter()) {
        assert_eq!(v.x, a.x + 5);
        assert_eq!(v.y, a.y - 6);
        assert_eq!(v.z, a.z + 7);
        assert_eq!((v.u, v.v), (a.u, a.v));
        assert_eq!((v.nx, v.ny, v.nz), (a.nx, a.ny, a.nz));
    }
}

#[test]
fn translating_twice_equals_translating_by_the_sum() {
    let base = || MeshBuilder::new().with_added([3, 1, 4], 0..6).with_added([-2, 0, 9], 1..4);
    let twice = base().with_translation([10, 20, 30]).with_translation([-4, 6, -8]).build();
    let once = base().with_translation([6, 26, 22]).build();
    assert_eq!(twice.vertices, once.vertices);
    assert_eq!(twice.indices, once.indices);
}

#[test]
fn template_corners_lie_on_the_unit_cube() {
    for d in 0..6 {
        for i in 0..4 {
            let t = template_vertex(d, i);
            assert!(t.x == 0 || t.x == 1);
            assert!(t.y == 0 || t.y == 1);
            assert!(t.z == 0 || t.z == 1);
            assert!(t.u == 0 || t.u == 1);
            assert!(t.v == 0 || t.v == 1);
            assert_eq!(t.nx.abs() + t.ny.abs() + t.nz.abs(), 1);
        }
    }
}

#[test]
fn top_template_is_the_fixed_quad() {
    let expect = [
        ((0, 1, 0), (0, 0)),
        ((0, 1, 1), (0, 1)),
        ((1, 1, 0), (1, 0)),
        ((1, 1, 1), (1, 1)),
    ];
    for (i, (p, uv)) in expect.iter().enumerate() {
        let t: Vertex = template_vertex(0, i);
        assert_eq!((t.x, t.y, t.z), *p);
        assert_eq!((t.u, t.v), *uv);
        assert_eq!((t.nx, t.ny, t.nz), (0, 1, 0));
    }
}
