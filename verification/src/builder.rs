//! An accumulating geometry builder: an ordered vertex sequence, an ordered
//! index sequence, and a face counter.
//!
//! Appending a face copies the quad template of a face direction, translated
//! to a coordinate, and appends the constant six-entry triangle pattern
//! `[0, 1, 2, 2, 1, 3]` offset by four times the face counter. By
//! construction the builder always holds four vertices and six indices per
//! face, and every index points inside the vertex buffer.

use vstd::prelude::*;

use crate::vertex::{face_template_vertex, in_i64, template_vertex, Vertex, FACE_DIRECTIONS};

verus! {

/// Largest face count a builder accepts: keeps every entry of the index
/// pattern of the last face (`4·face_count + 3`) within `u32`.
pub const MAX_FACE_COUNT: u32 = 0x3FFF_FFFF;

/// The six-entry triangle pattern of face number `k`: the constant pattern
/// `[0, 1, 2, 2, 1, 3]` offset by `4·k`.
pub open spec fn pattern_at(k: int) -> Seq<u32> {
    seq![
        (4 * k) as u32,
        (4 * k + 1) as u32,
        (4 * k + 2) as u32,
        (4 * k + 2) as u32,
        (4 * k + 1) as u32,
        (4 * k + 3) as u32,
    ]
}

/// The whole index sequence of a builder holding `fc` faces.
pub open spec fn quad_indices(fc: nat) -> Seq<u32>
    decreases fc,
{
    if fc == 0 {
        Seq::empty()
    } else {
        quad_indices((fc - 1) as nat) + pattern_at(fc - 1)
    }
}

/// The four vertices of face direction `d` placed at coordinate `(x, y, z)`.
pub open spec fn face_quad(x: int, y: int, z: int, d: int) -> Seq<Vertex> {
    Seq::new(4, |i: int| face_template_vertex(d, i).spec_translated(x, y, z))
}

/// The vertex sequence of a list of face placements `(x, y, z, d)`, one
/// quad per face, in order.
pub open spec fn faces_vertices(faces: Seq<(int, int, int, int)>) -> Seq<Vertex>
    decreases faces.len(),
{
    if faces.len() == 0 {
        Seq::empty()
    } else {
        let f = faces.last();
        faces_vertices(faces.drop_last()) + face_quad(f.0, f.1, f.2, f.3)
    }
}

/// The face placements `(x, y, z, s), (x, y, z, s+1), …, (x, y, z, e-1)`.
pub open spec fn face_run(x: int, y: int, z: int, s: int, e: int) -> Seq<(int, int, int, int)>
    decreases e - s,
{
    if e <= s {
        Seq::empty()
    } else {
        face_run(x, y, z, s, e - 1).push((x, y, z, e - 1))
    }
}

/// `vs` with every vertex position shifted by `(dx, dy, dz)`.
pub open spec fn translated_seq(vs: Seq<Vertex>, dx: int, dy: int, dz: int) -> Seq<Vertex> {
    vs.map(|i: int, v: Vertex| v.spec_translated(dx, dy, dz))
}

/// Accumulates faces into a flat vertex/index buffer; append-only, except
/// that the whole accumulated geometry can be translated. Consumed once by
/// `build` into an immutable `Geometry`.
pub struct MeshBuilder {
    vertices: Vec<Vertex>,
    indices: Vec<u32>,
    face_count: u32,
}

/// An immutable geometry buffer: the ordered vertices and triangle indices
/// of a finished builder.
pub struct Geometry {
    pub vertices: Vec<Vertex>,
    pub indices: Vec<u32>,
}

impl MeshBuilder {
    /// The accumulated vertex sequence.
    pub closed spec fn spec_vertices(self) -> Seq<Vertex> {
        self.vertices@
    }

    /// The accumulated index sequence.
    pub closed spec fn spec_indices(self) -> Seq<u32> {
        self.indices@
    }

    /// How many faces have been appended.
    pub closed spec fn spec_face_count(self) -> int {
        self.face_count as int
    }

    /// Structural invariant: four vertices per face, and the index sequence
    /// is exactly the triangle pattern of every face in order.
    pub closed spec fn wf(self) -> bool {
        &&& self.face_count <= MAX_FACE_COUNT
        &&& self.vertices@.len() == 4 * self.face_count
        &&& self.indices@ == quad_indices(self.face_count as nat)
    }

    /// An empty builder.
    pub fn new() -> (b: MeshBuilder)
        ensures
            b.wf(),
            b.spec_face_count() == 0,
            b.spec_vertices() == Seq::<Vertex>::empty(),
            b.spec_indices() == Seq::<u32>::empty(),
    {
        let b = MeshBuilder { vertices: Vec::new(), indices: Vec::new(), face_count: 0 };
        proof {
            assert(b.indices@ =~= quad_indices(0));
        }
        b
    }

    /// Append one face: the quad template of direction `face` translated to
    /// `coord`, plus the index pattern of the new face.
    pub fn add(&mut self, coord: [i64; 3], face: usize)
        requires
            old(self).wf(),
            face < FACE_DIRECTIONS,
            old(self).spec_face_count() < MAX_FACE_COUNT,
            coord[0] < i64::MAX,
            coord[1] < i64::MAX,
            coord[2] < i64::MAX,
        ensures
            final(self).wf(),
            final(self).spec_face_count() == old(self).spec_face_count() + 1,
            final(self).spec_vertices() == old(self).spec_vertices()
                + face_quad(coord[0] as int, coord[1] as int, coord[2] as int, face as int),
            final(self).spec_indices() == old(self).spec_indices()
                + pattern_at(old(self).spec_face_count()),
    {
        let v0 = template_vertex(face, 0).translated(coord[0], coord[1], coord[2]);
        let v1 = template_vertex(face, 1).translated(coord[0], coord[1], coord[2]);
        let v2 = template_vertex(face, 2).translated(coord[0], coord[1], coord[2]);
        let v3 = template_vertex(face, 3).translated(coord[0], coord[1], coord[2]);
        self.vertices.push(v0);
        self.vertices.push(v1);
        self.vertices.push(v2);
        self.vertices.push(v3);

        let base: u32 = 4 * self.face_count;
        self.indices.push(base);
        self.indices.push(base + 1);
        self.indices.push(base + 2);
        self.indices.push(base + 2);
        self.indices.push(base + 1);
        self.indices.push(base + 3);

        self.face_count = self.face_count + 1;

        proof {
            assert(self.vertices@ =~= old(self).vertices@
                + face_quad(coord[0] as int, coord[1] as int, coord[2] as int, face as int));
            assert(self.indices@ =~= old(self).indices@
                + pattern_at(old(self).face_count as int));
            assert(self.indices@ =~= quad_indices(self.face_count as nat));
        }
    }

    /// Append faces `faces.start`, `faces.start + 1`, …, `faces.end - 1`,
    /// all at coordinate `coord`.
    pub fn add_range(&mut self, coord: [i64; 3], faces: core::ops::Range<usize>)
        requires
            old(self).wf(),
            faces.end <= FACE_DIRECTIONS,
            old(self).spec_face_count() + FACE_DIRECTIONS <= MAX_FACE_COUNT,
            coord[0] < i64::MAX,
            coord[1] < i64::MAX,
            coord[2] < i64::MAX,
        ensures
            final(self).wf(),
            final(self).spec_face_count() == old(self).spec_face_count()
                + if faces.start <= faces.end { faces.end - faces.start } else { 0 },
            final(self).spec_vertices() == old(self).spec_vertices()
                + faces_vertices(face_run(coord[0] as int, coord[1] as int, coord[2] as int,
                    faces.start as int, faces.end as int)),
    {
        let end: usize = faces.end;
        let mut face: usize = faces.start;
        proof {
            assert(face_run(coord[0] as int, coord[1] as int, coord[2] as int,
                faces.start as int, faces.start as int) =~= Seq::empty());
            assert(self.spec_vertices() =~= old(self).spec_vertices()
                + faces_vertices(Seq::empty()));
        }
        while face < end
            invariant
                self.wf(),
                end <= FACE_DIRECTIONS,
                faces.start <= face,
                face <= end || face == faces.start,
                old(self).wf(),
                old(self).spec_face_count() + FACE_DIRECTIONS <= MAX_FACE_COUNT,
                coord[0] < i64::MAX,
                coord[1] < i64::MAX,
                coord[2] < i64::MAX,
                self.spec_face_count() == old(self).spec_face_count()
                    + if faces.start <= face { face - faces.start } else { 0 },
                self.spec_vertices() == old(self).spec_vertices()
                    + faces_vertices(face_run(coord[0] as int, coord[1] as int,
                        coord[2] as int, faces.start as int, face as int)),
            decreases end - face,
        {
            let ghost done = face_run(coord[0] as int, coord[1] as int, coord[2] as int,
                faces.start as int, face as int);
            self.add(coord, face);
            proof {
                lemma_faces_vertices_push(done,
                    (coord[0] as int, coord[1] as int, coord[2] as int, face as int));
                assert(face_run(coord[0] as int, coord[1] as int, coord[2] as int,
                    faces.start as int, face + 1)
                    =~= done.push((coord[0] as int, coord[1] as int, coord[2] as int,
                        face as int)));
            }
            face = face + 1;
        }
    }

    /// This builder with faces `faces.start … faces.end - 1` appended at
    /// `coord`.
    pub fn with_added(self, coord: [i64; 3], faces: core::ops::Range<usize>) -> (b: MeshBuilder)
        requires
            self.wf(),
            faces.end <= FACE_DIRECTIONS,
            self.spec_face_count() + FACE_DIRECTIONS <= MAX_FACE_COUNT,
            coord[0] < i64::MAX,
            coord[1] < i64::MAX,
            coord[2] < i64::MAX,
        ensures
            b.wf(),
            b.spec_face_count() == self.spec_face_count()
                + if faces.start <= faces.end { faces.end - faces.start } else { 0 },
            b.spec_vertices() == self.spec_vertices()
                + faces_vertices(face_run(coord[0] as int, coord[1] as int, coord[2] as int,
                    faces.start as int, faces.end as int)),
    {
        let mut b = self;
        b.add_range(coord, faces);
        b
    }

    /// Shift the position of every accumulated vertex by `distance`; the
    /// indices and the face count are kept.
    pub fn translate(&mut self, distance: [i64; 3])
        requires
            old(self).wf(),
            forall|i: int| 0 <= i < old(self).spec_vertices().len() ==> {
                &&& in_i64(#[trigger] old(self).spec_vertices()[i].x + distance[0])
                &&& in_i64(old(self).spec_vertices()[i].y + distance[1])
                &&& in_i64(old(self).spec_vertices()[i].z + distance[2])
            },
        ensures
            final(self).wf(),
            final(self).spec_face_count() == old(self).spec_face_count(),
            final(self).spec_indices() == old(self).spec_indices(),
            final(self).spec_vertices() == translated_seq(old(self).spec_vertices(),
                distance[0] as int, distance[1] as int, distance[2] as int),
    {
        let n: usize = self.vertices.len();
        let mut i: usize = 0;
        while i < n
            invariant
                i <= n,
                n == old(self).spec_vertices().len(),
                self.face_count == old(self).face_count,
                self.indices@ == old(self).indices@,
                self.vertices@.len() == n,
                old(self).wf(),
                forall|k: int| 0 <= k < n ==> {
                    &&& in_i64(#[trigger] old(self).spec_vertices()[k].x + distance[0])
                    &&& in_i64(old(self).spec_vertices()[k].y + distance[1])
                    &&& in_i64(old(self).spec_vertices()[k].z + distance[2])
                },
                forall|k: int| 0 <= k < i ==> self.vertices@[k]
                    == #[trigger] old(self).spec_vertices()[k].spec_translated(
                        distance[0] as int, distance[1] as int, distance[2] as int),
                forall|k: int| i <= k < n ==> self.vertices@[k]
                    == #[trigger] old(self).spec_vertices()[k],
            decreases n - i,
        {
            let v = self.vertices[i];
            proof {
                assert(v == old(self).spec_vertices()[i as int]);
                assert(in_i64(old(self).spec_vertices()[i as int].x + distance[0]));
            }
            let moved = v.translated(distance[0], distance[1], distance[2]);
            self.vertices.set(i, moved);
            i = i + 1;
        }
        proof {
            assert(self.vertices@ =~= translated_seq(old(self).spec_vertices(),
                distance[0] as int, distance[1] as int, distance[2] as int));
        }
    }

    /// This builder with every vertex position shifted by `distance`.
    pub fn with_translation(self, distance: [i64; 3]) -> (b: MeshBuilder)
        requires
            self.wf(),
            forall|i: int| 0 <= i < self.spec_vertices().len() ==> {
                &&& in_i64(#[trigger] self.spec_vertices()[i].x + distance[0])
                &&& in_i64(self.spec_vertices()[i].y + distance[1])
                &&& in_i64(self.spec_vertices()[i].z + distance[2])
            },
        ensures
            b.wf(),
            b.spec_face_count() == self.spec_face_count(),
            b.spec_indices() == self.spec_indices(),
            b.spec_vertices() == translated_seq(self.spec_vertices(),
                distance[0] as int, distance[1] as int, distance[2] as int),
    {
        let mut b = self;
        b.translate(distance);
        b
    }

    /// Finish: hand the accumulated buffers over as an immutable geometry.
    pub fn build(self) -> (g: Geometry)
        ensures
            g.vertices@ == self.spec_vertices(),
            g.indices@ == self.spec_indices(),
    {
        Geometry { vertices: self.vertices, indices: self.indices }
    }
}

impl Default for MeshBuilder {
    /// Same as `MeshBuilder::new`: an empty builder.
    fn default() -> (b: MeshBuilder)
        ensures
            b.wf(),
            b.spec_face_count() == 0,
            b.spec_vertices() == Seq::<Vertex>::empty(),
            b.spec_indices() == Seq::<u32>::empty(),
    {
        MeshBuilder::new()
    }
}

/// Appending one face placement appends exactly its quad.
pub proof fn lemma_faces_vertices_push(faces: Seq<(int, int, int, int)>, f: (int, int, int, int))
    ensures
        faces_vertices(faces.push(f)) == faces_vertices(faces) + face_quad(f.0, f.1, f.2, f.3),
{
    assert(faces.push(f).drop_last() =~= faces);
    assert(faces.push(f).last() == f);
}

/// The index sequence of `fc` faces has six entries per face.
pub proof fn lemma_quad_indices_len(fc: nat)
    ensures
        quad_indices(fc).len() == 6 * fc,
    decreases fc,
{
    if fc > 0 {
        lemma_quad_indices_len((fc - 1) as nat);
    }
}

/// Every entry of the index sequence of `fc` faces points below `4·fc`.
pub proof fn lemma_quad_indices_bounds(fc: nat)
    requires
        fc <= MAX_FACE_COUNT,
    ensures
        forall|i: int| 0 <= i < quad_indices(fc).len()
            ==> #[trigger] quad_indices(fc)[i] < 4 * fc,
    decreases fc,
{
    if fc > 0 {
        lemma_quad_indices_bounds((fc - 1) as nat);
        lemma_quad_indices_len((fc - 1) as nat);
    }
}

/// Law: any well-formed builder holds four vertices per face and six
/// indices per face, so its index count is exactly 1.5 times its vertex
/// count, and every index points inside the vertex buffer.
pub proof fn lemma_builder_counts(b: MeshBuilder)
    requires
        b.wf(),
    ensures
        b.spec_vertices().len() == 4 * b.spec_face_count(),
        b.spec_indices().len() == 6 * b.spec_face_count(),
        2 * b.spec_indices().len() == 3 * b.spec_vertices().len(),
        forall|i: int| 0 <= i < b.spec_indices().len()
            ==> #[trigger] b.spec_indices()[i] < b.spec_vertices().len(),
{
    lemma_quad_indices_len(b.spec_face_count() as nat);
    lemma_quad_indices_bounds(b.spec_face_count() as nat);
}

/// Law: translating by `t` and then by `u` is the same as translating once
/// by `t + u`, as long as both steps stay within `i64`.
pub proof fn lemma_translate_compose(vs: Seq<Vertex>, tx: int, ty: int, tz: int,
    ux: int, uy: int, uz: int)
    requires
        forall|i: int| 0 <= i < vs.len() ==> {
            &&& in_i64(#[trigger] vs[i].x + tx) && in_i64(vs[i].x + tx + ux)
            &&& in_i64(vs[i].y + ty) && in_i64(vs[i].y + ty + uy)
            &&& in_i64(vs[i].z + tz) && in_i64(vs[i].z + tz + uz)
        },
    ensures
        translated_seq(translated_seq(vs, tx, ty, tz), ux, uy, uz)
            == translated_seq(vs, tx + ux, ty + uy, tz + uz),
{
    assert(translated_seq(translated_seq(vs, tx, ty, tz), ux, uy, uz)
        =~= translated_seq(vs, tx + ux, ty + uy, tz + uz));
}

} // verus!
