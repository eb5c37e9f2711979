//! Data carried through the pipeline: triangles as read from a mesh file and
//! the flat vertex list a renderer draws.

use vstd::prelude::*;
use crate::fixed::FX_COORD_MAX;

verus! {

/// A point or direction in model space, in fixed-point ticks.
#[derive(Clone, Copy, PartialEq, Eq, Structural, Debug)]
pub struct Vec3 {
    pub x: i64,
    pub y: i64,
    pub z: i64,
}

/// A planar texture coordinate, in fixed-point ticks.
#[derive(Clone, Copy, PartialEq, Eq, Structural, Debug)]
pub struct Tex2 {
    pub u: i64,
    pub v: i64,
}

/// One source triangle: a face normal and three corners in winding order.
#[derive(Clone, Copy, PartialEq, Eq, Structural, Debug)]
pub struct Triangle {
    pub normal: Vec3,
    pub a: Vec3,
    pub b: Vec3,
    pub c: Vec3,
}

/// An ordered mesh, exactly as the source file listed it.
#[derive(Clone)]
pub struct Mesh {
    pub tris: Vec<Triangle>,
}

/// A renderable vertex: position, planar texture coordinate, and the face
/// normal of the triangle it belongs to.
#[derive(Clone, Copy, PartialEq, Eq, Structural, Debug)]
pub struct Vertex {
    pub pos: Vec3,
    pub tex: Tex2,
    pub normal: Vec3,
}

/// The flat non-indexed triangle list a renderer draws: entries `3i`,
/// `3i + 1`, `3i + 2` are the corners of triangle `i`, in source order.
#[derive(Clone)]
pub struct NormalizedModel {
    pub verts: Vec<Vertex>,
}

impl Triangle {
    /// Corner `j` of the triangle, for `j` in `0..3`, in winding order.
    pub open spec fn corner(self, j: int) -> Vec3 {
        if j == 0 {
            self.a
        } else if j == 1 {
            self.b
        } else {
            self.c
        }
    }
}

/// A coordinate a mesh may carry: bounded so that scaling arithmetic stays
/// inside the working width.
pub open spec fn coord_wf(c: int) -> bool {
    -FX_COORD_MAX <= c <= FX_COORD_MAX
}

/// Every position component of the triangle is a well-formed coordinate.
pub open spec fn tri_wf(t: Triangle) -> bool {
    &&& coord_wf(t.a.x as int) && coord_wf(t.a.y as int) && coord_wf(t.a.z as int)
    &&& coord_wf(t.b.x as int) && coord_wf(t.b.y as int) && coord_wf(t.b.z as int)
    &&& coord_wf(t.c.x as int) && coord_wf(t.c.y as int) && coord_wf(t.c.z as int)
}

/// Every triangle of the sequence is well formed.
pub open spec fn mesh_wf(tris: Seq<Triangle>) -> bool {
    forall|i: int| 0 <= i < tris.len() ==> tri_wf(#[trigger] tris[i])
}

impl Mesh {
    /// The mesh's triangles satisfy the coordinate bound.
    pub open spec fn wf(self) -> bool {
        mesh_wf(self.tris@)
    }

    /// Number of triangles.
    pub fn len(&self) -> (n: usize)
        ensures
            n == self.tris@.len(),
    {
        self.tris.len()
    }
}

impl NormalizedModel {
    /// Number of vertices in the flat list.
    pub fn len(&self) -> (n: usize)
        ensures
            n == self.verts@.len(),
    {
        self.verts.len()
    }

    /// An empty model: nothing to draw.
    pub fn empty() -> (m: NormalizedModel)
        ensures
            m.verts@.len() == 0,
    {
        NormalizedModel { verts: Vec::new() }
    }
}

} // verus!
