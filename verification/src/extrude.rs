//! Extrusion of a planar mesh into the facets of a closed solid.
//!
//! The solid has two copies of every mesh vertex, one on the upper and one
//! on the lower face. Its facets are the mesh triangles on the upper face,
//! the same triangles wound the other way on the lower face, and two facets
//! for every silhouette edge, which together span the wall between the two
//! copies of that edge.
//!
//! The corner order of a facet fixes the side its normal points to. With the
//! upper face above the lower one, the upper cap faces up where the mesh is
//! wound counter-clockwise, the lower cap faces the other way, and the wall
//! under an edge faces to the left of the edge, seen from above along its
//! direction. Whether that is the outside of the shape depends on the way
//! the mesh is wound, which is the caller's to know.

use crate::boundary::{boundary_edges, boundary_edges_spec, directed_edge, Edge};
use crate::boundary::{lemma_boundary_keeps_winding, next_corner};
use crate::mesh::{indices_fit, Mesh2D};
use vstd::prelude::*;

verus! {

/// The face of the solid on which a corner lies.
#[derive(Clone, Copy, Debug, PartialEq, Eq, Structural)]
pub enum Level {
    /// The face at half the depth above the middle plane.
    Top,
    /// The face at half the depth below the middle plane.
    Bottom,
}

/// One corner of a facet: a mesh vertex, copied to one face of the solid.
#[derive(Clone, Copy, Debug, PartialEq, Eq, Structural)]
pub struct Corner {
    pub vertex: u16,
    pub level: Level,
}

/// A triangle of the solid. Its normal points to the side from which the
/// corners `a`, `b`, `c` are seen to run counter-clockwise.
#[derive(Clone, Copy, Debug, PartialEq, Eq, Structural)]
pub struct Facet {
    pub a: Corner,
    pub b: Corner,
    pub c: Corner,
}

/// The copy of a vertex on the upper face.
pub open spec fn top(vertex: u16) -> Corner {
    Corner { vertex, level: Level::Top }
}

/// The copy of a vertex on the lower face.
pub open spec fn bottom(vertex: u16) -> Corner {
    Corner { vertex, level: Level::Bottom }
}

/// Triangle `t` of the mesh on the upper face, wound as the mesh winds it.
pub open spec fn top_facet(indices: Seq<u16>, t: int) -> Facet {
    Facet { a: top(indices[3 * t]), b: top(indices[3 * t + 1]), c: top(indices[3 * t + 2]) }
}

/// Triangle `t` of the mesh on the lower face, wound the other way round.
pub open spec fn bottom_facet(indices: Seq<u16>, t: int) -> Facet {
    Facet {
        a: bottom(indices[3 * t + 2]),
        b: bottom(indices[3 * t + 1]),
        c: bottom(indices[3 * t]),
    }
}

/// The first half of the wall under an edge: both upper corners, then the
/// lower copy of the edge's end.
pub open spec fn wall_upper(e: Edge) -> Facet {
    Facet { a: top(e.0), b: top(e.1), c: bottom(e.1) }
}

/// The second half of the wall under an edge: the upper copy of its start,
/// then both lower corners, end first.
pub open spec fn wall_lower(e: Edge) -> Facet {
    Facet { a: top(e.0), b: bottom(e.1), c: bottom(e.0) }
}

/// The upper cap: one facet for each triangle, in the order of the mesh.
pub open spec fn top_cap(indices: Seq<u16>) -> Seq<Facet> {
    Seq::new(indices.len() / 3, |t: int| top_facet(indices, t))
}

/// The lower cap: one facet for each triangle, in the order of the mesh.
pub open spec fn bottom_cap(indices: Seq<u16>) -> Seq<Facet> {
    Seq::new(indices.len() / 3, |t: int| bottom_facet(indices, t))
}

/// The walls under a list of edges: for each edge its two halves, upper
/// half first.
pub open spec fn side_walls(edges: Seq<Edge>) -> Seq<Facet> {
    Seq::new(
        2 * edges.len(),
        |k: int|
            if k % 2 == 0 {
                wall_upper(edges[k / 2])
            } else {
                wall_lower(edges[k / 2])
            },
    )
}

/// The facets of the solid over a triangle list: upper cap, lower cap, and
/// the walls under the silhouette.
pub open spec fn extrusion(indices: Seq<u16>) -> Seq<Facet> {
    top_cap(indices) + bottom_cap(indices) + side_walls(boundary_edges_spec(indices))
}

/// All three corners of a facet name one of the first `vertex_count` vertices.
pub open spec fn facet_in_range(f: Facet, vertex_count: nat) -> bool {
    f.a.vertex < vertex_count && f.b.vertex < vertex_count && f.c.vertex < vertex_count
}

/// All three corners of a facet lie on the given face.
pub open spec fn facet_on_level(f: Facet, level: Level) -> bool {
    f.a.level == level && f.b.level == level && f.c.level == level
}

/// The vertex indices of a list of facets, three per facet, in order.
pub open spec fn facet_indices_spec(facets: Seq<Facet>) -> Seq<u16> {
    Seq::new(
        3 * facets.len(),
        |k: int|
            if k % 3 == 0 {
                facets[k / 3].a.vertex
            } else if k % 3 == 1 {
                facets[k / 3].b.vertex
            } else {
                facets[k / 3].c.vertex
            },
    )
}

/// The walls under one more edge are the walls so far and its two halves.
proof fn lemma_side_walls_step(edges: Seq<Edge>, k: int)
    requires
        0 <= k < edges.len(),
    ensures
        side_walls(edges.take(k + 1)) == side_walls(edges.take(k)).push(wall_upper(edges[k])).push(
            wall_lower(edges[k]),
        ),
{
    assert(side_walls(edges.take(k + 1)) =~= side_walls(edges.take(k)).push(
        wall_upper(edges[k]),
    ).push(wall_lower(edges[k])));
}

/// Facet `i` of the solid lies wholly on the upper face when it belongs to
/// the upper cap, wholly on the lower face when it belongs to the lower cap,
/// and on both when it is part of a wall. The caps hold one facet for each
/// mesh triangle and come first, upper cap before lower.
pub proof fn lemma_facet_levels(indices: Seq<u16>, i: int)
    requires
        indices.len() % 3 == 0,
        0 <= i < extrusion(indices).len(),
    ensures
        i < indices.len() / 3 ==> facet_on_level(extrusion(indices)[i], Level::Top),
        indices.len() / 3 <= i < 2 * (indices.len() / 3) ==> facet_on_level(
            extrusion(indices)[i],
            Level::Bottom,
        ),
        2 * (indices.len() / 3) <= i ==> {
            &&& !facet_on_level(extrusion(indices)[i], Level::Top)
            &&& !facet_on_level(extrusion(indices)[i], Level::Bottom)
        },
{
}

/// Every corner of the solid over a well-formed mesh names a mesh vertex.
pub proof fn lemma_extrusion_in_range(indices: Seq<u16>, vertex_count: nat, i: int)
    requires
        indices_fit(indices, vertex_count),
        0 <= i < extrusion(indices).len(),
    ensures
        facet_in_range(extrusion(indices)[i], vertex_count),
{
    let triangles = indices.len() as int / 3;
    if i >= 2 * triangles {
        let j = (i - 2 * triangles) / 2;
        lemma_boundary_keeps_winding(indices, j);
        let k = choose|k: int|
            0 <= k < indices.len() && boundary_edges_spec(indices)[j] == #[trigger] directed_edge(
                indices,
                k,
            );
        assert(0 <= next_corner(k) < indices.len());
    }
}

/// Read back from the upper cap, the vertex indices are those of the mesh:
/// the silhouette of the upper cap is the silhouette of the mesh.
pub proof fn lemma_top_cap_keeps_indices(indices: Seq<u16>)
    requires
        indices.len() % 3 == 0,
    ensures
        facet_indices_spec(top_cap(indices)) == indices,
        boundary_edges_spec(facet_indices_spec(top_cap(indices))) == boundary_edges_spec(indices),
{
    assert(facet_indices_spec(top_cap(indices)) =~= indices);
}

/// Lists the vertex indices of some facets, three per facet, in order.
pub fn facet_indices(facets: &[Facet]) -> (indices: Vec<u16>)
    ensures
        indices@ == facet_indices_spec(facets@),
{
    let mut indices: Vec<u16> = Vec::new();
    for i in 0..facets.len()
        invariant
            indices@ == facet_indices_spec(facets@.take(i as int)),
    {
        let f = facets[i];
        indices.push(f.a.vertex);
        indices.push(f.b.vertex);
        indices.push(f.c.vertex);
        assert(indices@ =~= facet_indices_spec(facets@.take(i + 1)));
    }
    assert(facets@.take(facets@.len() as int) =~= facets@);
    indices
}

/// Extrudes a mesh into the facets of a closed solid.
///
/// The result lists the upper cap, then the lower cap, then the walls. The
/// upper cap keeps the winding of the mesh, the lower cap reverses it, and
/// each silhouette edge from `i0` to `i1` gives the two facets
/// `(top i0, top i1, bottom i1)` and `(top i0, bottom i1, bottom i0)`.
/// Every corner names a vertex of the mesh.
pub fn extrude_mesh<P>(mesh: &Mesh2D<P>) -> (facets: Vec<Facet>)
    requires
        mesh.well_formed(),
    ensures
        facets@ == extrusion(mesh.indices@),
        forall|i: int| 0 <= i < facets@.len() ==> facet_in_range(#[trigger] facets@[i], mesh.vertices@.len()),
{
    let ghost indices = mesh.indices@;
    let index_count: usize = mesh.indices.len();
    let triangles: usize = index_count / 3;
    let mut facets: Vec<Facet> = Vec::new();
    for t in 0..triangles
        invariant
            indices == mesh.indices@,
            indices.len() % 3 == 0,
            index_count == indices.len(),
            triangles == index_count / 3,
            facets@ == Seq::new(t as nat, |t: int| top_facet(indices, t)),
    {
        let a: u16 = mesh.indices[3 * t];
        let b: u16 = mesh.indices[3 * t + 1];
        let c: u16 = mesh.indices[3 * t + 2];
        facets.push(
            Facet {
                a: Corner { vertex: a, level: Level::Top },
                b: Corner { vertex: b, level: Level::Top },
                c: Corner { vertex: c, level: Level::Top },
            },
        );
        assert(facets@ =~= Seq::new((t + 1) as nat, |t: int| top_facet(indices, t)));
    }
    for t in 0..triangles
        invariant
            indices == mesh.indices@,
            indices.len() % 3 == 0,
            index_count == indices.len(),
            triangles == index_count / 3,
            facets@ == top_cap(indices) + Seq::new(t as nat, |t: int| bottom_facet(indices, t)),
    {
        let a: u16 = mesh.indices[3 * t];
        let b: u16 = mesh.indices[3 * t + 1];
        let c: u16 = mesh.indices[3 * t + 2];
        facets.push(
            Facet {
                a: Corner { vertex: c, level: Level::Bottom },
                b: Corner { vertex: b, level: Level::Bottom },
                c: Corner { vertex: a, level: Level::Bottom },
            },
        );
        assert(facets@ =~= top_cap(indices) + Seq::new(
            (t + 1) as nat,
            |t: int| bottom_facet(indices, t),
        ));
    }
    let edges = boundary_edges(mesh.indices.as_slice());
    assert(side_walls(edges@.take(0)) =~= Seq::<Facet>::empty());
    for k in 0..edges.len()
        invariant
            indices == mesh.indices@,
            edges@ == boundary_edges_spec(indices),
            facets@ == top_cap(indices) + bottom_cap(indices) + side_walls(edges@.take(k as int)),
    {
        let (i0, i1): (u16, u16) = edges[k];
        proof {
            lemma_side_walls_step(edges@, k as int);
        }
        facets.push(
            Facet {
                a: Corner { vertex: i0, level: Level::Top },
                b: Corner { vertex: i1, level: Level::Top },
                c: Corner { vertex: i1, level: Level::Bottom },
            },
        );
        facets.push(
            Facet {
                a: Corner { vertex: i0, level: Level::Top },
                b: Corner { vertex: i1, level: Level::Bottom },
                c: Corner { vertex: i0, level: Level::Bottom },
            },
        );
    }
    proof {
        assert(edges@.take(edges@.len() as int) =~= edges@);
        assert forall|i: int| 0 <= i < facets@.len() implies facet_in_range(
            #[trigger] facets@[i],
            mesh.vertices@.len(),
        ) by {
            lemma_extrusion_in_range(indices, mesh.vertices@.len(), i);
        }
    }
    facets
}

} // verus!
