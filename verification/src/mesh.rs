//! Indexed planar triangle meshes.
//!
//! A mesh is a list of vertices and a list of 16-bit vertex indices, read
//! three at a time as triangles. The vertex type is left to the caller: the
//! crate reads only how many vertices there are and which of them each
//! triangle names.

use vstd::prelude::*;

verus! {

/// A point of the plane over a scalar type of the caller's choice.
#[derive(Clone, Copy, Debug, PartialEq, Eq)]
pub struct Point2<S> {
    pub x: S,
    pub y: S,
}

/// A planar triangle mesh: vertices, and indices grouped in triples.
#[derive(Clone, Debug)]
pub struct Mesh2D<P> {
    pub vertices: Vec<P>,
    pub indices: Vec<u16>,
}

/// Why a vertex list and an index list do not make a mesh.
#[derive(Clone, Copy, Debug, PartialEq, Eq)]
pub enum MeshError {
    /// The index list does not end on a whole triangle.
    PartialTriangle { index_count: usize },
    /// The index at `position` names no vertex; it is the first that does not.
    IndexOutOfRange { position: usize, index: u16, vertex_count: usize },
}

/// `position` is the first place of `indices` that names no vertex.
pub open spec fn is_first_out_of_range(indices: Seq<u16>, vertex_count: nat, position: int) -> bool {
    &&& 0 <= position < indices.len()
    &&& indices[position] >= vertex_count
    &&& forall|i: int| 0 <= i < position ==> indices[i] < vertex_count
}

/// The index list is whole triangles and every index names a vertex.
pub open spec fn indices_fit(indices: Seq<u16>, vertex_count: nat) -> bool {
    &&& indices.len() % 3 == 0
    &&& forall|i: int| 0 <= i < indices.len() ==> indices[i] < vertex_count
}

impl<P> Mesh2D<P> {
    /// The invariant of a mesh: whole triangles, every index in range.
    pub open spec fn well_formed(&self) -> bool {
        indices_fit(self.indices@, self.vertices@.len())
    }

    /// The number of triangles of a well-formed mesh.
    pub open spec fn spec_triangle_count(&self) -> nat {
        self.indices@.len() / 3
    }

    /// Builds a mesh from its two lists, or says what is wrong with them.
    ///
    /// The lists are taken as they are. A partial last triangle is reported
    /// before any index out of range, and of those the first one is named.
    pub fn new(vertices: Vec<P>, indices: Vec<u16>) -> (made: Result<Mesh2D<P>, MeshError>)
        ensures
            match made {
                Ok(mesh) => {
                    &&& mesh.vertices == vertices
                    &&& mesh.indices == indices
                    &&& mesh.well_formed()
                },
                Err(MeshError::PartialTriangle { index_count }) => {
                    &&& indices@.len() % 3 != 0
                    &&& index_count == indices@.len()
                },
                Err(MeshError::IndexOutOfRange { position, index, vertex_count }) => {
                    &&& indices@.len() % 3 == 0
                    &&& is_first_out_of_range(indices@, vertices@.len(), position as int)
                    &&& index == indices@[position as int]
                    &&& vertex_count == vertices@.len()
                },
            },
    {
        let index_count: usize = indices.len();
        let vertex_count: usize = vertices.len();
        if index_count % 3 != 0 {
            return Err(MeshError::PartialTriangle { index_count });
        }
        for position in 0..index_count
            invariant
                index_count == indices@.len(),
                index_count % 3 == 0,
                vertex_count == vertices@.len(),
                forall|i: int| 0 <= i < position ==> indices@[i] < vertex_count,
        {
            let index: u16 = indices[position];
            if index as usize >= vertex_count {
                return Err(MeshError::IndexOutOfRange { position, index, vertex_count });
            }
        }
        Ok(Mesh2D { vertices, indices })
    }

    /// The number of triangles.
    pub fn triangle_count(&self) -> (count: usize)
        ensures
            count == self.spec_triangle_count(),
    {
        self.indices.len() / 3
    }
}

/// The index list of a rectangle cut along the diagonal from its first
/// corner to its third.
pub open spec fn rectangle_indices() -> Seq<u16> {
    seq![0u16, 1u16, 2u16, 0u16, 2u16, 3u16]
}

/// Builds the two-triangle mesh of an axis-aligned rectangle.
///
/// The corners run counter-clockwise from `(min_x, min_y)`, and both
/// triangles wind the same way.
pub fn rectangle_mesh<S: Copy>(min_x: S, max_x: S, min_y: S, max_y: S) -> (mesh: Mesh2D<Point2<S>>)
    ensures
        mesh.vertices@ == seq![
            (Point2 { x: min_x, y: min_y }),
            (Point2 { x: max_x, y: min_y }),
            (Point2 { x: max_x, y: max_y }),
            (Point2 { x: min_x, y: max_y }),
        ],
        mesh.indices@ == rectangle_indices(),
        mesh.well_formed(),
{
    let vertices: Vec<Point2<S>> = vec![
        Point2 { x: min_x, y: min_y },
        Point2 { x: max_x, y: min_y },
        Point2 { x: max_x, y: max_y },
        Point2 { x: min_x, y: max_y },
    ];
    let indices: Vec<u16> = vec![0u16, 1u16, 2u16, 0u16, 2u16, 3u16];
    Mesh2D { vertices, indices }
}

} // verus!
