//! Mesh vertices and the fixed quad templates of the six face directions.
//!
//! Each face direction (top, bottom, left, right, front, back) owns a
//! constant quad of four vertices: a corner position on the unit cube, a
//! texture coordinate, and the outward normal. Positions, texture
//! coordinates and normals are small integers; a renderer outside this
//! crate converts them to its own number format when uploading.

use vstd::prelude::*;

verus! {

/// The number of face directions of a cell.
pub const FACE_DIRECTIONS: usize = 6;

/// One mesh vertex: position `(x, y, z)`, texture coordinate `(u, v)`,
/// outward normal `(nx, ny, nz)`.
#[derive(Clone, Copy, Debug, PartialEq, Eq)]
pub struct Vertex {
    pub x: i64,
    pub y: i64,
    pub z: i64,
    pub u: i64,
    pub v: i64,
    pub nx: i64,
    pub ny: i64,
    pub nz: i64,
}

/// `n` fits in an `i64`.
pub open spec fn in_i64(n: int) -> bool {
    i64::MIN <= n <= i64::MAX
}

impl Vertex {
    /// This vertex with its position shifted by `(dx, dy, dz)`; texture
    /// coordinate and normal are kept.
    pub open spec fn spec_translated(self, dx: int, dy: int, dz: int) -> Vertex {
        Vertex {
            x: (self.x + dx) as i64,
            y: (self.y + dy) as i64,
            z: (self.z + dz) as i64,
            ..self
        }
    }

    /// Shift the position by `(dx, dy, dz)`.
    pub fn translated(self, dx: i64, dy: i64, dz: i64) -> (r: Vertex)
        requires
            in_i64(self.x + dx),
            in_i64(self.y + dy),
            in_i64(self.z + dz),
        ensures
            r == self.spec_translated(dx as int, dy as int, dz as int),
    {
        Vertex {
            x: self.x + dx,
            y: self.y + dy,
            z: self.z + dz,
            ..self
        }
    }
}

/// Corner `i` of the quad template of face direction `d`, before any
/// translation. Face directions in order: 0 top (+y), 1 bottom (-y),
/// 2 left (-x), 3 right (+x), 4 front (-z), 5 back (+z).
pub open spec fn face_template_vertex(d: int, i: int) -> Vertex {
    let (p, uv, n) = face_template_parts(d, i);
    Vertex { x: p.0, y: p.1, z: p.2, u: uv.0, v: uv.1, nx: n.0, ny: n.1, nz: n.2 }
}

/// Position, texture coordinate and normal of corner `i` of face `d`.
pub open spec fn face_template_parts(d: int, i: int) -> (
    (i64, i64, i64),
    (i64, i64),
    (i64, i64, i64),
) {
    if d == 0 {
        let p = if i == 0 { (0i64, 1i64, 0i64) } else if i == 1 { (0i64, 1i64, 1i64) }
            else if i == 2 { (1i64, 1i64, 0i64) } else { (1i64, 1i64, 1i64) };
        let uv = if i == 0 { (0i64, 0i64) } else if i == 1 { (0i64, 1i64) }
            else if i == 2 { (1i64, 0i64) } else { (1i64, 1i64) };
        (p, uv, (0i64, 1i64, 0i64))
    } else if d == 1 {
        let p = if i == 0 { (0i64, 0i64, 1i64) } else if i == 1 { (0i64, 0i64, 0i64) }
            else if i == 2 { (1i64, 0i64, 1i64) } else { (1i64, 0i64, 0i64) };
        let uv = if i == 0 { (0i64, 1i64) } else if i == 1 { (0i64, 0i64) }
            else if i == 2 { (1i64, 1i64) } else { (1i64, 0i64) };
        (p, uv, (0i64, -1i64, 0i64))
    } else if d == 2 {
        let p = if i == 0 { (0i64, 0i64, 1i64) } else if i == 1 { (0i64, 1i64, 1i64) }
            else if i == 2 { (0i64, 0i64, 0i64) } else { (0i64, 1i64, 0i64) };
        let uv = if i == 0 { (0i64, 1i64) } else if i == 1 { (1i64, 1i64) }
            else if i == 2 { (0i64, 0i64) } else { (1i64, 0i64) };
        (p, uv, (-1i64, 0i64, 0i64))
    } else if d == 3 {
        let p = if i == 0 { (1i64, 0i64, 0i64) } else if i == 1 { (1i64, 1i64, 0i64) }
            else if i == 2 { (1i64, 0i64, 1i64) } else { (1i64, 1i64, 1i64) };
        let uv = if i == 0 { (0i64, 0i64) } else if i == 1 { (1i64, 0i64) }
            else if i == 2 { (0i64, 1i64) } else { (1i64, 1i64) };
        (p, uv, (1i64, 0i64, 0i64))
    } else if d == 4 {
        let p = if i == 0 { (0i64, 0i64, 0i64) } else if i == 1 { (0i64, 1i64, 0i64) }
            else if i == 2 { (1i64, 0i64, 0i64) } else { (1i64, 1i64, 0i64) };
        let uv = if i == 0 { (0i64, 0i64) } else if i == 1 { (0i64, 1i64) }
            else if i == 2 { (1i64, 0i64) } else { (1i64, 1i64) };
        (p, uv, (0i64, 0i64, -1i64))
    } else {
        let p = if i == 0 { (1i64, 0i64, 1i64) } else if i == 1 { (1i64, 1i64, 1i64) }
            else if i == 2 { (0i64, 0i64, 1i64) } else { (0i64, 1i64, 1i64) };
        let uv = if i == 0 { (1i64, 0i64) } else if i == 1 { (1i64, 1i64) }
            else if i == 2 { (0i64, 0i64) } else { (0i64, 1i64) };
        (p, uv, (0i64, 0i64, 1i64))
    }
}

/// Build corner `i` of the quad template of face direction `d`.
pub fn template_vertex(d: usize, i: usize) -> (r: Vertex)
    requires
        d < FACE_DIRECTIONS,
        i < 4,
    ensures
        r == face_template_vertex(d as int, i as int),
{
    let p: (i64, i64, i64);
    let uv: (i64, i64);
    let n: (i64, i64, i64);
    if d == 0 {
        p = if i == 0 { (0, 1, 0) } else if i == 1 { (0, 1, 1) }
            else if i == 2 { (1, 1, 0) } else { (1, 1, 1) };
        uv = if i == 0 { (0, 0) } else if i == 1 { (0, 1) }
            else if i == 2 { (1, 0) } else { (1, 1) };
        n = (0, 1, 0);
    } else if d == 1 {
        p = if i == 0 { (0, 0, 1) } else if i == 1 { (0, 0, 0) }
            else if i == 2 { (1, 0, 1) } else { (1, 0, 0) };
        uv = if i == 0 { (0, 1) } else if i == 1 { (0, 0) }
            else if i == 2 { (1, 1) } else { (1, 0) };
        n = (0, -1, 0);
    } else if d == 2 {
        p = if i == 0 { (0, 0, 1) } else if i == 1 { (0, 1, 1) }
            else if i == 2 { (0, 0, 0) } else { (0, 1, 0) };
        uv = if i == 0 { (0, 1) } else if i == 1 { (1, 1) }
            else if i == 2 { (0, 0) } else { (1, 0) };
        n = (-1, 0, 0);
    } else if d == 3 {
        p = if i == 0 { (1, 0, 0) } else if i == 1 { (1, 1, 0) }
            else if i == 2 { (1, 0, 1) } else { (1, 1, 1) };
        uv = if i == 0 { (0, 0) } else if i == 1 { (1, 0) }
            else if i == 2 { (0, 1) } else { (1, 1) };
        n = (1, 0, 0);
    } else if d == 4 {
        p = if i == 0 { (0, 0, 0) } else if i == 1 { (0, 1, 0) }
            else if i == 2 { (1, 0, 0) } else { (1, 1, 0) };
        uv = if i == 0 { (0, 0) } else if i == 1 { (0, 1) }
            else if i == 2 { (1, 0) } else { (1, 1) };
        n = (0, 0, -1);
    } else {
        p = if i == 0 { (1, 0, 1) } else if i == 1 { (1, 1, 1) }
            else if i == 2 { (0, 0, 1) } else { (0, 1, 1) };
        uv = if i == 0 { (1, 0) } else if i == 1 { (1, 1) }
            else if i == 2 { (0, 0) } else { (0, 1) };
        n = (0, 0, 1);
    }
    Vertex { x: p.0, y: p.1, z: p.2, u: uv.0, v: uv.1, nx: n.0, ny: n.1, nz: n.2 }
}

} // verus!
