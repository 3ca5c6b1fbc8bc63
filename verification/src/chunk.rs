//! A chunk: a cube of `width³` cells, each empty or holding a `Tile`,
//! stored flat and addressed by `x + y·width + z·width²`; and the
//! face-culling mesher that turns a chunk into boundary-facing quads.
//!
//! For every occupied cell and each of its six face directions, a face is
//! emitted exactly when the neighbouring cell in that direction is outside
//! the chunk or empty. An out-of-range neighbour counts as exposed on
//! purpose: neighbouring chunks are never consulted, so the outer shell of
//! a chunk is always fully meshed.

use vstd::prelude::*;

use crate::builder::{faces_vertices, lemma_faces_vertices_push, MeshBuilder, MAX_FACE_COUNT};
use crate::vertex::FACE_DIRECTIONS;

verus! {

/// Side length, in cells, of a chunk made by `Chunk::new`.
pub const CHUNK_SIZE: usize = 32;

/// Largest side length `Chunk::with_size` accepts. It keeps a fully meshed
/// chunk (at most `6·width³` faces) within the face budget of a
/// `MeshBuilder`, and keeps every flat index within `usize`.
pub const MAX_CHUNK_SIZE: usize = 512;

/// Tag held by an occupied cell.
#[derive(Clone, Copy, Debug, PartialEq, Eq)]
pub struct Tile {}

/// A cube of `width³` cells. Created fully empty; mutated cell by cell with
/// `set`; read with `get` or meshed on demand. Out-of-range coordinates are
/// caller faults, ruled out by the `requires` of each accessor.
pub struct Chunk {
    width: usize,
    tiles: Vec<Option<Tile>>,
}

impl Chunk {
    /// Side length of this chunk, in cells.
    pub closed spec fn spec_width(self) -> int {
        self.width as int
    }

    /// Structural invariant: the flat storage holds exactly `width³` cells.
    pub closed spec fn wf(self) -> bool {
        &&& 1 <= self.width <= MAX_CHUNK_SIZE
        &&& self.tiles@.len() == self.width * self.width * self.width
    }

    /// The cell at `(x, y, z)` lies inside the chunk and is occupied.
    /// False for every coordinate outside `[0, width)³`.
    pub closed spec fn occ(self, x: int, y: int, z: int) -> bool {
        &&& 0 <= x < self.width
        &&& 0 <= y < self.width
        &&& 0 <= z < self.width
        &&& self.tiles@[x + y * self.width + z * self.width * self.width] is Some
    }

    /// A fully empty chunk of side `CHUNK_SIZE`.
    pub fn new() -> (c: Chunk)
        ensures
            c.wf(),
            c.spec_width() == CHUNK_SIZE,
            forall|x: int, y: int, z: int| !c.occ(x, y, z),
    {
        Chunk::with_size(CHUNK_SIZE)
    }

    /// A fully empty chunk of side `width`.
    pub fn with_size(width: usize) -> (c: Chunk)
        requires
            1 <= width <= MAX_CHUNK_SIZE,
        ensures
            c.wf(),
            c.spec_width() == width,
            forall|x: int, y: int, z: int| !c.occ(x, y, z),
    {
        proof {
            assert(width * width <= 0x4_0000
                && width * width * width <= 0x800_0000) by (nonlinear_arith)
                requires
                    1 <= width <= 512,
            ;
        }
        let volume: usize = width * width * width;
        let mut tiles: Vec<Option<Tile>> = Vec::new();
        let mut i: usize = 0;
        while i < volume
            invariant
                i <= volume,
                tiles@.len() == i,
                forall|k: int| 0 <= k < i ==> tiles@[k] is None,
            decreases volume - i,
        {
            tiles.push(None);
            i = i + 1;
        }
        let c = Chunk { width, tiles };
        proof {
            assert forall|x: int, y: int, z: int| !c.occ(x, y, z) by {
                if 0 <= x < width && 0 <= y < width && 0 <= z < width {
                    lemma_flat_index_bounds(x, y, z, width as int);
                }
            }
        }
        c
    }

    /// Overwrite the cell at `loc` (empty it with `None`, occupy it with
    /// `Some(tile)`). Every other cell is untouched.
    pub fn set(&mut self, loc: [usize; 3], tile: Option<Tile>)
        requires
            old(self).wf(),
            loc[0] < old(self).spec_width(),
            loc[1] < old(self).spec_width(),
            loc[2] < old(self).spec_width(),
        ensures
            final(self).wf(),
            final(self).spec_width() == old(self).spec_width(),
            final(self).occ(loc[0] as int, loc[1] as int, loc[2] as int) <==> tile is Some,
            forall|x: int, y: int, z: int|
                !(x == loc[0] && y == loc[1] && z == loc[2])
                    ==> (final(self).occ(x, y, z) <==> old(self).occ(x, y, z)),
    {
        proof {
            lemma_flat_index_bounds(loc[0] as int, loc[1] as int, loc[2] as int,
                self.width as int);
        }
        let i: usize = loc[0] + loc[1] * self.width + loc[2] * self.width * self.width;
        self.tiles.set(i, tile);
        proof {
            let w = old(self).width as int;
            assert forall|x: int, y: int, z: int|
                !(x == loc[0] && y == loc[1] && z == loc[2])
                    implies (self.occ(x, y, z) <==> old(self).occ(x, y, z)) by {
                if 0 <= x < w && 0 <= y < w && 0 <= z < w {
                    lemma_flat_index_bounds(x, y, z, w);
                    if x + y * w + z * w * w
                        == loc[0] + loc[1] * w + loc[2] * w * w {
                        lemma_flat_index_injective(x, y, z,
                            loc[0] as int, loc[1] as int, loc[2] as int, w);
                    }
                }
            }
        }
    }

    /// Read the cell at `loc`: `Some` exactly when the cell is occupied.
    pub fn get(&self, loc: [usize; 3]) -> (t: Option<&Tile>)
        requires
            self.wf(),
            loc[0] < self.spec_width(),
            loc[1] < self.spec_width(),
            loc[2] < self.spec_width(),
        ensures
            t is Some <==> self.occ(loc[0] as int, loc[1] as int, loc[2] as int),
    {
        proof {
            lemma_flat_index_bounds(loc[0] as int, loc[1] as int, loc[2] as int,
                self.width as int);
        }
        let i: usize = loc[0] + loc[1] * self.width + loc[2] * self.width * self.width;
        self.tiles[i].as_ref()
    }
}

impl Default for Chunk {
    /// Same as `Chunk::new`: a fully empty chunk of side `CHUNK_SIZE`.
    fn default() -> (c: Chunk)
        ensures
            c.wf(),
            c.spec_width() == CHUNK_SIZE,
            forall|x: int, y: int, z: int| !c.occ(x, y, z),
    {
        Chunk::new()
    }
}

/// Offset an in-range cell coordinate by one step: `Some` of the neighbour
/// exactly when every axis of `pos + offset` stays inside `[0, width)`.
pub fn loc(pos: [usize; 3], offset: [i32; 3], width: usize) -> (r: Option<[usize; 3]>)
    requires
        width <= MAX_CHUNK_SIZE,
        pos[0] < width,
        pos[1] < width,
        pos[2] < width,
    ensures
        r is Some <==> {
            &&& 0 <= pos[0] + offset[0] < width
            &&& 0 <= pos[1] + offset[1] < width
            &&& 0 <= pos[2] + offset[2] < width
        },
        r matches Some(q) ==> {
            &&& q[0] == pos[0] + offset[0]
            &&& q[1] == pos[1] + offset[1]
            &&& q[2] == pos[2] + offset[2]
        },
{
    let px: i64 = pos[0] as i64 + offset[0] as i64;
    let py: i64 = pos[1] as i64 + offset[1] as i64;
    let pz: i64 = pos[2] as i64 + offset[2] as i64;
    let w: i64 = width as i64;
    if 0 <= px && px < w && 0 <= py && py < w && 0 <= pz && pz < w {
        Some([px as usize, py as usize, pz as usize])
    } else {
        None
    }
}

impl Chunk {
    /// Face `(x, y, z, d)` is boundary-facing: the cell is occupied and its
    /// neighbour one step in direction `d` is outside the chunk or empty.
    pub open spec fn face_visible(self, x: int, y: int, z: int, d: int) -> bool {
        &&& self.occ(x, y, z)
        &&& !self.occ(x + dir_dx(d), y + dir_dy(d), z + dir_dz(d))
    }

    /// Mesh this chunk: walk every cell in `x`-major order and, for each
    /// occupied cell, append the boundary-facing faces among its six
    /// directions, placed at the cell coordinate shifted by `offset`.
    #[verifier::loop_isolation(false)]
    pub fn mesh(&self, offset: [i64; 3]) -> (b: MeshBuilder)
        requires
            self.wf(),
            offset[0] + self.spec_width() <= i64::MAX,
            offset[1] + self.spec_width() <= i64::MAX,
            offset[2] + self.spec_width() <= i64::MAX,
        ensures
            b.wf(),
            b.spec_face_count() == chunk_faces(*self).len(),
            b.spec_vertices() == faces_vertices(shift_faces(chunk_faces(*self),
                offset[0] as int, offset[1] as int, offset[2] as int)),
    {
        let ghost c = *self;
        let ghost ox = offset[0] as int;
        let ghost oy = offset[1] as int;
        let ghost oz = offset[2] as int;
        let w: usize = self.width;
        let mut builder = MeshBuilder::new();
        let ghost mut fs: Seq<(int, int, int, int)> = Seq::empty();
        proof {
            assert(fs =~= mesh_prefix(c, 0, 0, 0, 0));
        }
        let mut x: usize = 0;
        while x < w
            invariant
                x <= w,
                builder.wf(),
                builder.spec_face_count() == fs.len(),
                builder.spec_vertices() == faces_vertices(shift_faces(fs, ox, oy, oz)),
                fs == mesh_prefix(c, x as int, 0, 0, 0),
            decreases w - x,
        {
            let mut y: usize = 0;
            while y < w
                invariant
                    y <= w,
                    builder.wf(),
                    builder.spec_face_count() == fs.len(),
                    builder.spec_vertices() == faces_vertices(shift_faces(fs, ox, oy, oz)),
                    fs == mesh_prefix(c, x as int, y as int, 0, 0),
                decreases w - y,
            {
                let mut z: usize = 0;
                while z < w
                    invariant
                        z <= w,
                        builder.wf(),
                        builder.spec_face_count() == fs.len(),
                        builder.spec_vertices() == faces_vertices(shift_faces(fs, ox, oy, oz)),
                        fs == mesh_prefix(c, x as int, y as int, z as int, 0),
                    decreases w - z,
                {
                    if self.get([x, y, z]).is_some() {
                        let mut d: usize = 0;
                        while d < FACE_DIRECTIONS
                            invariant
                                d <= FACE_DIRECTIONS,
                                builder.wf(),
                                builder.spec_face_count() == fs.len(),
                                builder.spec_vertices()
                                    == faces_vertices(shift_faces(fs, ox, oy, oz)),
                                fs == mesh_prefix(c, x as int, y as int, z as int, d as int),
                                x < w,
                                y < w,
                                z < w,
                            decreases FACE_DIRECTIONS - d,
                        {
                            let o = dir_offset(d);
                            let neighbour = loc([x, y, z], o, w);
                            let visible = match neighbour {
                                None => true,
                                Some(p) => self.get(p).is_none(),
                            };
                            proof {
                                assert(visible == c.face_visible(x as int, y as int, z as int,
                                    d as int));
                            }
                            if visible {
                                proof {
                                    lemma_mesh_prefix_len(c, x as int, y as int, z as int,
                                        d as int);
                                }
                                let ghost before = fs;
                                builder.add([
                                    x as i64 + offset[0],
                                    y as i64 + offset[1],
                                    z as i64 + offset[2],
                                ], d);
                                proof {
                                    let f = (x as int, y as int, z as int, d as int);
                                    fs = fs.push(f);
                                    assert(fs =~= mesh_prefix(c, x as int, y as int,
                                        z as int, d as int + 1));
                                    assert(shift_faces(fs, ox, oy, oz)
                                        =~= shift_faces(before, ox, oy, oz)
                                            .push((f.0 + ox, f.1 + oy, f.2 + oz, f.3)));
                                    lemma_faces_vertices_push(shift_faces(before, ox, oy, oz),
                                        (f.0 + ox, f.1 + oy, f.2 + oz, f.3));
                                }
                            } else {
                                proof {
                                    assert(fs =~= mesh_prefix(c, x as int, y as int,
                                        z as int, d as int + 1));
                                }
                            }
                            d = d + 1;
                        }
                        proof {
                            assert(fs =~= mesh_prefix(c, x as int, y as int, z as int + 1, 0));
                        }
                    } else {
                        proof {
                            lemma_cell_faces_empty(c, x as int, y as int, z as int, 6);
                            assert(fs =~= mesh_prefix(c, x as int, y as int, z as int + 1, 0));
                        }
                    }
                    z = z + 1;
                }
                proof {
                    assert(fs =~= mesh_prefix(c, x as int, y as int + 1, 0, 0));
                }
                y = y + 1;
            }
            proof {
                assert(fs =~= mesh_prefix(c, x as int + 1, 0, 0, 0));
            }
            x = x + 1;
        }
        proof {
            assert(fs =~= chunk_faces(c));
        }
        builder
    }
}

/// The `x` component of the neighbour offset of face direction `d`.
pub open spec fn dir_dx(d: int) -> int {
    if d == 2 { -1 } else if d == 3 { 1 } else { 0 }
}

/// The `y` component of the neighbour offset of face direction `d`.
pub open spec fn dir_dy(d: int) -> int {
    if d == 0 { 1 } else if d == 1 { -1 } else { 0 }
}

/// The `z` component of the neighbour offset of face direction `d`.
pub open spec fn dir_dz(d: int) -> int {
    if d == 4 { -1 } else if d == 5 { 1 } else { 0 }
}

/// The neighbour offset of face direction `d`, as executable values.
pub fn dir_offset(d: usize) -> (o: [i32; 3])
    requires
        d < FACE_DIRECTIONS,
    ensures
        o[0] == dir_dx(d as int),
        o[1] == dir_dy(d as int),
        o[2] == dir_dz(d as int),
{
    if d == 0 { [0, 1, 0] }
    else if d == 1 { [0, -1, 0] }
    else if d == 2 { [-1, 0, 0] }
    else if d == 3 { [1, 0, 0] }
    else if d == 4 { [0, 0, -1] }
    else { [0, 0, 1] }
}

/// The boundary-facing faces of cell `(x, y, z)` among directions
/// `0, …, d-1`, in direction order.
pub open spec fn cell_faces_upto(c: Chunk, x: int, y: int, z: int, d: int)
    -> Seq<(int, int, int, int)>
    decreases d,
{
    if d <= 0 {
        Seq::empty()
    } else {
        cell_faces_upto(c, x, y, z, d - 1)
            + if c.face_visible(x, y, z, d - 1) {
                seq![(x, y, z, d - 1)]
            } else {
                Seq::empty()
            }
    }
}

/// All boundary-facing faces of cell `(x, y, z)`.
pub open spec fn cell_faces(c: Chunk, x: int, y: int, z: int) -> Seq<(int, int, int, int)> {
    cell_faces_upto(c, x, y, z, FACE_DIRECTIONS as int)
}

/// The faces of the cells `(x, y, 0), …, (x, y, z-1)`, in order.
pub open spec fn col_faces_upto(c: Chunk, x: int, y: int, z: int) -> Seq<(int, int, int, int)>
    decreases z,
{
    if z <= 0 {
        Seq::empty()
    } else {
        col_faces_upto(c, x, y, z - 1) + cell_faces(c, x, y, z - 1)
    }
}

/// The faces of the columns `(x, 0), …, (x, y-1)`, each walked over the
/// whole width, in order.
pub open spec fn plane_faces_upto(c: Chunk, x: int, y: int) -> Seq<(int, int, int, int)>
    decreases y,
{
    if y <= 0 {
        Seq::empty()
    } else {
        plane_faces_upto(c, x, y - 1) + col_faces_upto(c, x, y - 1, c.spec_width())
    }
}

/// The faces of the planes `0, …, x-1`, each walked over the whole width,
/// in order.
pub open spec fn chunk_faces_upto(c: Chunk, x: int) -> Seq<(int, int, int, int)>
    decreases x,
{
    if x <= 0 {
        Seq::empty()
    } else {
        chunk_faces_upto(c, x - 1) + plane_faces_upto(c, x - 1, c.spec_width())
    }
}

/// Every boundary-facing face of the chunk, in the order the mesher walks:
/// `x`-major over cells, then direction order within a cell.
pub open spec fn chunk_faces(c: Chunk) -> Seq<(int, int, int, int)> {
    chunk_faces_upto(c, c.spec_width())
}

/// The faces emitted by the mesher up to plane `x`, column `y`, cell `z`
/// and direction `d` of that cell.
pub open spec fn mesh_prefix(c: Chunk, x: int, y: int, z: int, d: int)
    -> Seq<(int, int, int, int)>
{
    chunk_faces_upto(c, x) + plane_faces_upto(c, x, y) + col_faces_upto(c, x, y, z)
        + cell_faces_upto(c, x, y, z, d)
}

/// `fs` with every face coordinate shifted by `(ox, oy, oz)`; the direction
/// is kept.
pub open spec fn shift_faces(fs: Seq<(int, int, int, int)>, ox: int, oy: int, oz: int)
    -> Seq<(int, int, int, int)>
{
    fs.map(|i: int, f: (int, int, int, int)| (f.0 + ox, f.1 + oy, f.2 + oz, f.3))
}

/// An unoccupied cell has no boundary-facing face.
pub proof fn lemma_cell_faces_empty(c: Chunk, x: int, y: int, z: int, d: int)
    requires
        !c.occ(x, y, z),
    ensures
        cell_faces_upto(c, x, y, z, d) == Seq::<(int, int, int, int)>::empty(),
    decreases d,
{
    if d > 0 {
        lemma_cell_faces_empty(c, x, y, z, d - 1);
        assert(cell_faces_upto(c, x, y, z, d) =~= Seq::empty());
    } else {
        assert(cell_faces_upto(c, x, y, z, d) =~= Seq::empty());
    }
}

/// A cell yields at most one face per direction.
pub proof fn lemma_cell_faces_len(c: Chunk, x: int, y: int, z: int, d: int)
    ensures
        cell_faces_upto(c, x, y, z, d).len() <= if d >= 0 { d } else { 0 },
    decreases d,
{
    if d > 0 {
        lemma_cell_faces_len(c, x, y, z, d - 1);
    }
}

/// A column of `z` cells yields at most `6·z` faces.
pub proof fn lemma_col_faces_len(c: Chunk, x: int, y: int, z: int)
    ensures
        col_faces_upto(c, x, y, z).len() <= if z >= 0 { 6 * z } else { 0 },
    decreases z,
{
    if z > 0 {
        lemma_col_faces_len(c, x, y, z - 1);
        lemma_cell_faces_len(c, x, y, z - 1, 6);
    }
}

/// A plane of `y` columns yields at most `6·y·width` faces.
pub proof fn lemma_plane_faces_len(c: Chunk, x: int, y: int)
    ensures
        plane_faces_upto(c, x, y).len() <= if y >= 0 { 6 * y * c.spec_width() } else { 0 },
    decreases y,
{
    let w = c.spec_width();
    if y > 0 {
        lemma_plane_faces_len(c, x, y - 1);
        lemma_col_faces_len(c, x, y - 1, w);
        assert(6 * (y - 1) * w + 6 * w == 6 * y * w) by (nonlinear_arith);
    }
}

/// `x` planes yield at most `6·x·width²` faces.
pub proof fn lemma_chunk_faces_len(c: Chunk, x: int)
    ensures
        chunk_faces_upto(c, x).len()
            <= if x >= 0 { 6 * x * c.spec_width() * c.spec_width() } else { 0 },
    decreases x,
{
    let w = c.spec_width();
    if x > 0 {
        lemma_chunk_faces_len(c, x - 1);
        lemma_plane_faces_len(c, x - 1, w);
        assert(6 * (x - 1) * w * w + 6 * w * w == 6 * x * w * w) by (nonlinear_arith);
    }
}

/// While the mesher stands at an in-range cell of a well-formed chunk, the
/// faces emitted so far stay below the builder's face budget.
pub proof fn lemma_mesh_prefix_len(c: Chunk, x: int, y: int, z: int, d: int)
    requires
        c.wf(),
        0 <= x < c.spec_width(),
        0 <= y < c.spec_width(),
        0 <= z < c.spec_width(),
        0 <= d < 6,
    ensures
        mesh_prefix(c, x, y, z, d).len() < MAX_FACE_COUNT,
{
    let w = c.spec_width();
    lemma_chunk_faces_len(c, x);
    lemma_plane_faces_len(c, x, y);
    lemma_col_faces_len(c, x, y, z);
    lemma_cell_faces_len(c, x, y, z, d);
    assert(6 * x * w * w + 6 * y * w + 6 * z + d < 0x3FFF_FFFF) by (nonlinear_arith)
        requires
            0 <= x < w,
            0 <= y < w,
            0 <= z < w,
            0 <= d < 6,
            w <= 512,
    ;
}

/// Membership in a concatenation is membership in either part.
proof fn lemma_concat_contains<T>(a: Seq<T>, b: Seq<T>, x: T)
    ensures
        (a + b).contains(x) <==> a.contains(x) || b.contains(x),
{
    if a.contains(x) {
        let i = choose|i: int| 0 <= i < a.len() && a[i] == x;
        assert((a + b)[i] == x);
    }
    if b.contains(x) {
        let i = choose|i: int| 0 <= i < b.len() && b[i] == x;
        assert((a + b)[a.len() + i] == x);
    }
    if (a + b).contains(x) {
        let i = choose|i: int| 0 <= i < (a + b).len() && (a + b)[i] == x;
        if i < a.len() {
            assert(a[i] == x);
        } else {
            assert(b[i - a.len()] == x);
        }
    }
}

/// A cell's face list holds `(x, y, z, k)` for exactly the visible
/// directions `k` below `d`.
proof fn lemma_cell_faces_contains(c: Chunk, x: int, y: int, z: int, d: int,
    f: (int, int, int, int))
    ensures
        cell_faces_upto(c, x, y, z, d).contains(f) <==> {
            &&& f.0 == x && f.1 == y && f.2 == z
            &&& 0 <= f.3 < d
            &&& c.face_visible(x, y, z, f.3)
        },
    decreases d,
{
    if d > 0 {
        lemma_cell_faces_contains(c, x, y, z, d - 1, f);
        let tail = if c.face_visible(x, y, z, d - 1) {
            seq![(x, y, z, d - 1)]
        } else {
            Seq::<(int, int, int, int)>::empty()
        };
        lemma_concat_contains(cell_faces_upto(c, x, y, z, d - 1), tail, f);
        if c.face_visible(x, y, z, d - 1) && f == (x, y, z, d - 1) {
            assert(tail[0] == f);
        }
    }
}

/// A column's face list holds exactly the visible faces of its first `z`
/// cells.
proof fn lemma_col_faces_contains(c: Chunk, x: int, y: int, z: int, f: (int, int, int, int))
    ensures
        col_faces_upto(c, x, y, z).contains(f) <==> {
            &&& f.0 == x && f.1 == y
            &&& 0 <= f.2 < z
            &&& 0 <= f.3 < 6
            &&& c.face_visible(x, y, f.2, f.3)
        },
    decreases z,
{
    if z > 0 {
        lemma_col_faces_contains(c, x, y, z - 1, f);
        lemma_cell_faces_contains(c, x, y, z - 1, 6, f);
        lemma_concat_contains(col_faces_upto(c, x, y, z - 1), cell_faces(c, x, y, z - 1), f);
    }
}

/// A plane's face list holds exactly the visible faces of its first `y`
/// columns.
proof fn lemma_plane_faces_contains(c: Chunk, x: int, y: int, f: (int, int, int, int))
    ensures
        plane_faces_upto(c, x, y).contains(f) <==> {
            &&& f.0 == x
            &&& 0 <= f.1 < y
            &&& 0 <= f.3 < 6
            &&& c.face_visible(x, f.1, f.2, f.3)
        },
    decreases y,
{
    if y > 0 {
        lemma_plane_faces_contains(c, x, y - 1, f);
        lemma_col_faces_contains(c, x, y - 1, c.spec_width(), f);
        lemma_concat_contains(plane_faces_upto(c, x, y - 1),
            col_faces_upto(c, x, y - 1, c.spec_width()), f);
    }
}

/// The face list of the first `x` planes holds exactly their visible faces.
proof fn lemma_chunk_faces_contains(c: Chunk, x: int, f: (int, int, int, int))
    ensures
        chunk_faces_upto(c, x).contains(f) <==> {
            &&& 0 <= f.0 < x
            &&& 0 <= f.3 < 6
            &&& c.face_visible(f.0, f.1, f.2, f.3)
        },
    decreases x,
{
    if x > 0 {
        lemma_chunk_faces_contains(c, x - 1, f);
        lemma_plane_faces_contains(c, x - 1, c.spec_width(), f);
        lemma_concat_contains(chunk_faces_upto(c, x - 1),
            plane_faces_upto(c, x - 1, c.spec_width()), f);
    }
}

/// Law: the mesher emits a face for cell `(x, y, z)` in direction `d`
/// exactly when the cell is occupied and its neighbour one step in
/// direction `d` lies outside the chunk or is empty.
pub proof fn lemma_face_emitted_iff_visible(c: Chunk, x: int, y: int, z: int, d: int)
    ensures
        chunk_faces(c).contains((x, y, z, d)) <==> (0 <= d < 6 && c.face_visible(x, y, z, d)),
{
    lemma_chunk_faces_contains(c, c.spec_width(), (x, y, z, d));
}

/// Law: meshing a fully empty chunk yields no face at all.
pub proof fn lemma_mesh_empty_chunk(c: Chunk)
    requires
        forall|x: int, y: int, z: int| !c.occ(x, y, z),
    ensures
        chunk_faces(c) == Seq::<(int, int, int, int)>::empty(),
{
    if chunk_faces(c).len() > 0 {
        let f = chunk_faces(c)[0];
        assert(chunk_faces(c).contains(f));
        lemma_face_emitted_iff_visible(c, f.0, f.1, f.2, f.3);
        assert(!c.occ(f.0, f.1, f.2));
    }
    assert(chunk_faces(c) =~= Seq::empty());
}

/// Exactly one cell, at the origin, is occupied.
pub open spec fn only_origin_occupied(c: Chunk) -> bool {
    &&& c.occ(0, 0, 0)
    &&& forall|x: int, y: int, z: int| !(x == 0 && y == 0 && z == 0) ==> !c.occ(x, y, z)
}

/// A cell whose first `d` directions are all visible yields `d` faces.
proof fn lemma_cell_faces_full_len(c: Chunk, x: int, y: int, z: int, d: int)
    requires
        0 <= d,
        forall|k: int| 0 <= k < d ==> c.face_visible(x, y, z, k),
    ensures
        cell_faces_upto(c, x, y, z, d).len() == d,
    decreases d,
{
    if d > 0 {
        lemma_cell_faces_full_len(c, x, y, z, d - 1);
    }
}

/// A column of unoccupied cells yields no face.
proof fn lemma_col_faces_empty(c: Chunk, x: int, y: int, z: int)
    requires
        forall|zz: int| !c.occ(x, y, zz),
    ensures
        col_faces_upto(c, x, y, z).len() == 0,
    decreases z,
{
    if z > 0 {
        lemma_col_faces_empty(c, x, y, z - 1);
        lemma_cell_faces_empty(c, x, y, z - 1, 6);
    }
}

/// A plane of unoccupied cells yields no face.
proof fn lemma_plane_faces_empty(c: Chunk, x: int, y: int)
    requires
        forall|yy: int, zz: int| !c.occ(x, yy, zz),
    ensures
        plane_faces_upto(c, x, y).len() == 0,
    decreases y,
{
    if y > 0 {
        lemma_plane_faces_empty(c, x, y - 1);
        lemma_col_faces_empty(c, x, y - 1, c.spec_width());
    }
}

/// In a chunk whose only occupied cell is the origin, the first column
/// yields exactly the origin's six faces.
proof fn lemma_single_cell_col(c: Chunk, z: int)
    requires
        only_origin_occupied(c),
        1 <= z,
    ensures
        col_faces_upto(c, 0, 0, z).len() == 6,
    decreases z,
{
    if z == 1 {
        assert forall|k: int| 0 <= k < 6 implies c.face_visible(0, 0, 0, k) by {
            assert(!c.occ(dir_dx(k), dir_dy(k), dir_dz(k)));
        }
        lemma_cell_faces_full_len(c, 0, 0, 0, 6);
        assert(col_faces_upto(c, 0, 0, 0) =~= Seq::empty());
    } else {
        lemma_single_cell_col(c, z - 1);
        lemma_cell_faces_empty(c, 0, 0, z - 1, 6);
    }
}

/// In a chunk whose only occupied cell is the origin, the first plane
/// yields exactly the origin's six faces.
proof fn lemma_single_cell_plane(c: Chunk, y: int)
    requires
        only_origin_occupied(c),
        c.spec_width() >= 1,
        1 <= y,
    ensures
        plane_faces_upto(c, 0, y).len() == 6,
    decreases y,
{
    if y == 1 {
        lemma_single_cell_col(c, c.spec_width());
        assert(plane_faces_upto(c, 0, 0) =~= Seq::empty());
    } else {
        lemma_single_cell_plane(c, y - 1);
        lemma_col_faces_empty(c, 0, y - 1, c.spec_width());
    }
}

/// Law: a single occupied cell at the origin of an otherwise empty chunk of
/// any width yields exactly six faces: every neighbour is empty or out of
/// range.
pub proof fn lemma_mesh_single_cell(c: Chunk)
    requires
        c.spec_width() >= 1,
        only_origin_occupied(c),
    ensures
        chunk_faces(c).len() == 6,
{
    lemma_single_cell_chunk(c, c.spec_width());
}

/// In a chunk whose only occupied cell is the origin, the first `x` planes
/// together yield exactly the origin's six faces.
proof fn lemma_single_cell_chunk(c: Chunk, x: int)
    requires
        only_origin_occupied(c),
        c.spec_width() >= 1,
        1 <= x,
    ensures
        chunk_faces_upto(c, x).len() == 6,
    decreases x,
{
    if x == 1 {
        lemma_single_cell_plane(c, c.spec_width());
        assert(chunk_faces_upto(c, 0) =~= Seq::empty());
    } else {
        lemma_single_cell_chunk(c, x - 1);
        lemma_plane_faces_empty(c, x - 1, c.spec_width());
    }
}

/// An in-range coordinate's flat index lies inside the storage, and every
/// partial product along the way stays small enough for `usize` arithmetic.
pub proof fn lemma_flat_index_bounds(x: int, y: int, z: int, w: int)
    requires
        0 <= x < w,
        0 <= y < w,
        0 <= z < w,
        w <= MAX_CHUNK_SIZE,
    ensures
        0 <= y * w < w * w,
        0 <= z * w < w * w,
        0 <= z * w * w < w * w * w,
        0 <= x + y * w < w * w,
        0 <= x + y * w + z * w * w < w * w * w,
        w * w <= 0x4_0000,
        w * w * w <= 0x800_0000,
{
    assert(0 <= y * w < w * w
        && 0 <= z * w < w * w
        && 0 <= z * w * w < w * w * w
        && 0 <= x + y * w < w * w
        && 0 <= x + y * w + z * w * w < w * w * w
        && w * w <= 0x4_0000
        && w * w * w <= 0x800_0000) by (nonlinear_arith)
        requires
            0 <= x < w,
            0 <= y < w,
            0 <= z < w,
            w <= 512,
    ;
}

/// Distinct in-range coordinates flatten to distinct indices.
pub proof fn lemma_flat_index_injective(x1: int, y1: int, z1: int,
    x2: int, y2: int, z2: int, w: int)
    requires
        0 <= x1 < w,
        0 <= y1 < w,
        0 <= z1 < w,
        0 <= x2 < w,
        0 <= y2 < w,
        0 <= z2 < w,
        x1 + y1 * w + z1 * w * w == x2 + y2 * w + z2 * w * w,
    ensures
        x1 == x2 && y1 == y2 && z1 == z2,
{
    assert(x1 == x2 && y1 == y2 && z1 == z2) by (nonlinear_arith)
        requires
            0 <= x1 < w,
            0 <= y1 < w,
            0 <= z1 < w,
            0 <= x2 < w,
            0 <= y2 < w,
            0 <= z2 < w,
            x1 + y1 * w + z1 * w * w == x2 + y2 * w + z2 * w * w,
    ;
}

} // verus!
