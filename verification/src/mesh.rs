use vstd::prelude::*;

use crate::geometry::{zero2, zero3, Geometry, Point2, Point3, SCALAR_ZERO};

verus! {

/// How the engine is to read the index list of a mesh.
#[derive(Clone, Copy, Debug, PartialEq, Eq, Structural)]
pub enum Topology {
    TriangleList,
}

/// A renderable mesh: per-vertex attribute arrays of equal length plus a
/// triangle-list index array. Normals and texture coordinates are
/// zero-filled placeholders — flat stroke geometry has no meaningful
/// surface normal — and are never computed from the positions.
pub struct Mesh {
    pub topology: Topology,
    pub positions: Vec<Point3>,
    pub normals: Vec<Point3>,
    pub uvs: Vec<Point2>,
    pub indices: Vec<u32>,
}

/// The mesh derived from a vertex/index buffer: positions and indices are
/// taken over verbatim (same values, same order), and the normal and
/// texture-coordinate arrays hold one zero entry per position.
pub open spec fn is_mesh_of(m: Mesh, vertices: Seq<Point3>, indices: Seq<u32>) -> bool {
    &&& m.topology == Topology::TriangleList
    &&& m.positions@ == vertices
    &&& m.indices@ == indices
    &&& m.normals@.len() == vertices.len()
    &&& (forall|i: int| 0 <= i < m.normals@.len() ==> m.normals@[i] == zero3())
    &&& m.uvs@.len() == vertices.len()
    &&& (forall|i: int| 0 <= i < m.uvs@.len() ==> m.uvs@[i] == zero2())
}

impl Mesh {
    /// Length agreement among the per-vertex attribute arrays.
    pub open spec fn wf(self) -> bool {
        self.normals@.len() == self.positions@.len() && self.uvs@.len()
            == self.positions@.len()
    }

    /// Converts a raw vertex/index buffer into a mesh, copying positions
    /// and indices verbatim and padding normals and texture coordinates
    /// with zeros, one entry per position.
    pub fn from_geometry(geometry: Geometry) -> (m: Mesh)
        ensures
            is_mesh_of(m, geometry.vertices@, geometry.indices@),
            m.wf(),
    {
        let num_vertices = geometry.vertices.len();
        let mut normals: Vec<Point3> = Vec::new();
        let mut uvs: Vec<Point2> = Vec::new();
        let mut i: usize = 0;
        while i < num_vertices
            invariant
                i <= num_vertices,
                normals@.len() == i,
                uvs@.len() == i,
                forall|j: int| 0 <= j < i ==> normals@[j] == zero3(),
                forall|j: int| 0 <= j < i ==> uvs@[j] == zero2(),
            decreases num_vertices - i,
        {
            normals.push(Point3 { x: SCALAR_ZERO, y: SCALAR_ZERO, z: SCALAR_ZERO });
            uvs.push(Point2 { x: SCALAR_ZERO, y: SCALAR_ZERO });
            i = i + 1;
        }
        Mesh {
            topology: Topology::TriangleList,
            positions: geometry.vertices,
            normals,
            uvs,
            indices: geometry.indices,
        }
    }
}

} // verus!
