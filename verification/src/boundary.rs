//! Silhouette detection on a triangle index list.
//!
//! Every triangle contributes three directed edges. An edge whose unordered
//! pair of endpoints occurs exactly once over the whole list belongs to one
//! triangle only, so it lies on the silhouette of the triangulated shape.

use std::collections::HashMap;
use vstd::prelude::*;

verus! {

/// A directed edge between two vertex indices.
pub type Edge = (u16, u16);

/// The unordered pair behind a directed edge: the smaller index first.
pub open spec fn edge_key(e: Edge) -> Edge {
    if e.0 < e.1 {
        e
    } else {
        (e.1, e.0)
    }
}

/// The position of the corner that follows corner `k` in its triangle.
pub open spec fn next_corner(k: int) -> int {
    if k % 3 == 2 {
        k - 2
    } else {
        k + 1
    }
}

/// The directed edge that leaves corner `k`, in the winding of its triangle.
pub open spec fn directed_edge(indices: Seq<u16>, k: int) -> Edge
    recommends
        indices.len() % 3 == 0,
        0 <= k < indices.len(),
{
    (indices[k], indices[next_corner(k)])
}

/// All directed edges of a triangle list, three per triangle, in order.
pub open spec fn directed_edges(indices: Seq<u16>) -> Seq<Edge>
    recommends
        indices.len() % 3 == 0,
{
    Seq::new(indices.len(), |k: int| directed_edge(indices, k))
}

/// How many of `edges` join the two endpoints of `key`, in either direction.
pub open spec fn occurrences(edges: Seq<Edge>, key: Edge) -> nat
    decreases edges.len(),
{
    if edges.len() == 0 {
        0
    } else {
        occurrences(edges.drop_last(), key) + if edge_key(edges.last()) == key {
            1nat
        } else {
            0nat
        }
    }
}

/// An edge is unshared when no other edge of `edges` joins the same endpoints.
pub open spec fn is_unshared(edges: Seq<Edge>, e: Edge) -> bool {
    occurrences(edges, edge_key(e)) == 1
}

/// The test `is_unshared` against a fixed edge list, as a predicate.
pub open spec fn unshared_in(edges: Seq<Edge>) -> spec_fn(Edge) -> bool {
    |e: Edge| is_unshared(edges, e)
}

/// The silhouette of a triangle list: its unshared directed edges, each in
/// the winding of the triangle it comes from, in the order of the list.
pub open spec fn boundary_edges_spec(indices: Seq<u16>) -> Seq<Edge> {
    directed_edges(indices).filter(unshared_in(directed_edges(indices)))
}

/// The number under which an unordered pair is counted. The counts are
/// kept in a hash map, and what a hash map holds after an insertion is
/// known for integer keys, not for pairs: so the two indices of a pair are
/// packed into one number.
spec fn packed(key: Edge) -> u32 {
    (key.0 * 65536 + key.1) as u32
}

/// The count a map holds for an unordered pair, zero where it holds none.
spec fn count_of(counts: Map<u32, usize>, key: Edge) -> nat {
    if counts.contains_key(packed(key)) {
        counts[packed(key)] as nat
    } else {
        0
    }
}

/// Different pairs are counted under different numbers.
proof fn lemma_packed_injective(a: Edge, b: Edge)
    ensures
        packed(a) == packed(b) <==> a == b,
{
}

/// No pair occurs more often than there are edges.
pub proof fn lemma_occurrences_bounded(edges: Seq<Edge>, key: Edge)
    ensures
        occurrences(edges, key) <= edges.len(),
    decreases edges.len(),
{
    if edges.len() > 0 {
        lemma_occurrences_bounded(edges.drop_last(), key);
    }
}

/// Counting over one more edge adds one exactly when that edge joins `key`.
pub proof fn lemma_occurrences_step(edges: Seq<Edge>, k: int, key: Edge)
    requires
        0 <= k < edges.len(),
    ensures
        occurrences(edges.take(k + 1), key) == occurrences(edges.take(k), key) + if edge_key(
            edges[k],
        ) == key {
            1nat
        } else {
            0nat
        },
{
    assert(edges.take(k + 1).drop_last() =~= edges.take(k));
}

/// A longer prefix never counts fewer occurrences.
pub proof fn lemma_occurrences_monotone(edges: Seq<Edge>, i: int, j: int, key: Edge)
    requires
        0 <= i <= j <= edges.len(),
    ensures
        occurrences(edges.take(i), key) <= occurrences(edges.take(j), key),
    decreases j - i,
{
    if i < j {
        lemma_occurrences_monotone(edges, i, j - 1, key);
        lemma_occurrences_step(edges, j - 1, key);
    }
}

/// Two different positions that join the same endpoints make the pair shared.
pub proof fn lemma_two_positions_are_shared(edges: Seq<Edge>, i: int, j: int)
    requires
        0 <= i < j < edges.len(),
        edge_key(edges[i]) == edge_key(edges[j]),
    ensures
        occurrences(edges, edge_key(edges[i])) >= 2,
{
    let key = edge_key(edges[i]);
    lemma_occurrences_step(edges, i, key);
    lemma_occurrences_monotone(edges, i + 1, j, key);
    lemma_occurrences_step(edges, j, key);
    lemma_occurrences_monotone(edges, j + 1, edges.len() as int, key);
    assert(edges.take(edges.len() as int) =~= edges);
}

/// Filtering one more edge appends it exactly when it is unshared.
proof fn lemma_filter_step(edges: Seq<Edge>, k: int)
    requires
        0 <= k < edges.len(),
    ensures
        edges.take(k + 1).filter(unshared_in(edges)) == if is_unshared(edges, edges[k]) {
            edges.take(k).filter(unshared_in(edges)).push(edges[k])
        } else {
            edges.take(k).filter(unshared_in(edges))
        },
{
    reveal(Seq::filter);
    assert(edges.take(k + 1).drop_last() =~= edges.take(k));
}

/// The edges kept from a prefix of an edge list join pairwise different
/// endpoints.
proof fn lemma_kept_prefix_distinct(edges: Seq<Edge>, n: int)
    requires
        0 <= n <= edges.len(),
    ensures
        forall|i: int, j: int|
            #![trigger edges.take(n).filter(unshared_in(edges))[i], edges.take(n).filter(unshared_in(edges))[j]]
            0 <= i < j < edges.take(n).filter(unshared_in(edges)).len() ==> edge_key(
                edges.take(n).filter(unshared_in(edges))[i],
            ) != edge_key(edges.take(n).filter(unshared_in(edges))[j]),
    decreases n,
{
    let kept = edges.take(n).filter(unshared_in(edges));
    if n == 0 {
        reveal(Seq::filter);
    } else {
        let shorter = edges.take(n - 1).filter(unshared_in(edges));
        lemma_kept_prefix_distinct(edges, n - 1);
        lemma_filter_step(edges, n - 1);
        if is_unshared(edges, edges[n - 1]) {
            assert forall|i: int, j: int| 0 <= i < j < kept.len() implies edge_key(kept[i])
                != edge_key(kept[j]) by {
                if j == kept.len() - 1 {
                    assert(shorter.contains(kept[i]));
                    let shown = edges.take(n - 1);
                    shown.lemma_filter_contains_rev(unshared_in(edges), kept[i]);
                    let k = choose|k: int| 0 <= k < shown.len() && shown[k] == kept[i];
                    if edge_key(edges[k]) == edge_key(edges[n - 1]) {
                        lemma_two_positions_are_shared(edges, k, n - 1);
                    }
                } else {
                    assert(kept[i] == shorter[i] && kept[j] == shorter[j]);
                }
            }
        }
    }
}

/// An edge is on the silhouette exactly when a triangle of the list winds it
/// and no other edge of the list joins the same two vertices.
pub proof fn lemma_boundary_membership(indices: Seq<u16>, e: Edge)
    ensures
        boundary_edges_spec(indices).contains(e) <==> directed_edges(indices).contains(e)
            && is_unshared(directed_edges(indices), e),
{
    let all = directed_edges(indices);
    let kept = boundary_edges_spec(indices);
    if kept.contains(e) {
        all.lemma_filter_contains_rev(unshared_in(all), e);
        let i = choose|i: int| 0 <= i < kept.len() && kept[i] == e;
        all.lemma_filter_pred(unshared_in(all), i);
    }
    if all.contains(e) && is_unshared(all, e) {
        let k = choose|k: int| 0 <= k < all.len() && all[k] == e;
        all.lemma_filter_contains(unshared_in(all), k);
    }
}

/// Every silhouette edge runs from a corner of some triangle to the corner
/// that follows it there: it keeps the winding of the triangle it comes from.
pub proof fn lemma_boundary_keeps_winding(indices: Seq<u16>, i: int)
    requires
        0 <= i < boundary_edges_spec(indices).len(),
    ensures
        exists|k: int|
            0 <= k < indices.len() && boundary_edges_spec(indices)[i] == #[trigger] directed_edge(
                indices,
                k,
            ),
{
    let all = directed_edges(indices);
    let e = boundary_edges_spec(indices)[i];
    assert(boundary_edges_spec(indices).contains(e));
    all.lemma_filter_contains_rev(unshared_in(all), e);
    let k = choose|k: int| 0 <= k < all.len() && all[k] == e;
    assert(e == directed_edge(indices, k));
}

/// The silhouette holds each of its edges once: no two of its entries join
/// the same two vertices, in either direction.
pub proof fn lemma_boundary_each_once(indices: Seq<u16>, i: int, j: int)
    requires
        0 <= i < j < boundary_edges_spec(indices).len(),
    ensures
        edge_key(boundary_edges_spec(indices)[i]) != edge_key(boundary_edges_spec(indices)[j]),
{
    let all = directed_edges(indices);
    lemma_kept_prefix_distinct(all, all.len() as int);
    assert(all.take(all.len() as int) =~= all);
}

/// An edge that two corners of the list both leave along, in either
/// direction, is interior: it is not on the silhouette.
pub proof fn lemma_shared_edge_is_interior(indices: Seq<u16>, i: int, j: int)
    requires
        0 <= i < j < indices.len(),
        edge_key(directed_edge(indices, i)) == edge_key(directed_edge(indices, j)),
    ensures
        !boundary_edges_spec(indices).contains(directed_edge(indices, i)),
        !boundary_edges_spec(indices).contains(directed_edge(indices, j)),
{
    let all = directed_edges(indices);
    lemma_two_positions_are_shared(all, i, j);
    lemma_boundary_membership(indices, directed_edge(indices, i));
    lemma_boundary_membership(indices, directed_edge(indices, j));
}

fn edge_at(indices: &[u16], n: usize, k: usize) -> (e: Edge)
    requires
        n == indices@.len(),
        n % 3 == 0,
        k < n,
    ensures
        e == directed_edge(indices@, k as int),
{
    let next: usize = if k % 3 == 2 {
        k - 2
    } else {
        k + 1
    };
    (indices[k], indices[next])
}

fn pack(e: Edge) -> (p: u32)
    ensures
        p == packed(edge_key(e)),
{
    let (lo, hi): (u16, u16) = if e.0 < e.1 {
        e
    } else {
        (e.1, e.0)
    };
    (lo as u32) * 65536 + (hi as u32)
}

fn lookup(counts: &HashMap<u32, usize>, e: Edge) -> (c: usize)
    ensures
        c == count_of(counts@, edge_key(e)),
{
    match counts.get(&pack(e)) {
        Some(c) => *c,
        None => 0,
    }
}

/// Returns the silhouette of a triangle index list.
///
/// Each edge that belongs to exactly one triangle is returned once, directed
/// as that triangle winds it, in the order in which the list holds them.
/// Edges shared by two or more triangles are left out.
///
/// The list is read twice: once to count how often each pair of vertices is
/// joined, once to pick the edges whose pair was counted once. The second
/// reading takes the place of a walk over the map, whose order changes from
/// run to run, and of a record of the direction in which each pair was first
/// seen: a pair that is joined once is first seen where it is found again.
pub fn boundary_edges(indices: &[u16]) -> (edges: Vec<Edge>)
    requires
        indices@.len() % 3 == 0,
    ensures
        edges@ == boundary_edges_spec(indices@),
{
    let n: usize = indices.len();
    let ghost all = directed_edges(indices@);
    let mut counts: HashMap<u32, usize> = HashMap::new();
    for k in 0..n
        invariant
            n == indices@.len(),
            n % 3 == 0,
            all == directed_edges(indices@),
            forall|key: Edge| #[trigger]
                count_of(counts@, key) == if edge_key(key) == key {
                    occurrences(all.take(k as int), key)
                } else {
                    0
                },
    {
        let e = edge_at(indices, n, k);
        let seen = lookup(&counts, e);
        proof {
            lemma_occurrences_bounded(all.take(k as int), edge_key(e));
            assert forall|key: Edge| edge_key(key) == key implies occurrences(
                all.take(k + 1),
                key,
            ) == occurrences(all.take(k as int), key) + if edge_key(e) == key {
                1nat
            } else {
                0nat
            } by {
                lemma_occurrences_step(all, k as int, key);
            }
        }
        let ghost before = counts@;
        counts.insert(pack(e), seen + 1);
        proof {
            assert forall|key: Edge| #[trigger]
                count_of(counts@, key) == if edge_key(key) == key {
                    occurrences(all.take(k + 1), key)
                } else {
                    0
                } by {
                lemma_packed_injective(key, edge_key(e));
                assert(count_of(before, key) == if edge_key(key) == key {
                    occurrences(all.take(k as int), key)
                } else {
                    0
                });
            }
        }
    }
    assert(all.take(n as int) =~= all);
    let mut edges: Vec<Edge> = Vec::new();
    for k in 0..n
        invariant
            n == indices@.len(),
            n % 3 == 0,
            all == directed_edges(indices@),
            forall|key: Edge| #[trigger]
                count_of(counts@, key) == if edge_key(key) == key {
                    occurrences(all, key)
                } else {
                    0
                },
            edges@ == all.take(k as int).filter(unshared_in(all)),
    {
        let e = edge_at(indices, n, k);
        proof {
            lemma_filter_step(all, k as int);
        }
        if lookup(&counts, e) == 1 {
            edges.push(e);
        }
    }
    assert(all.take(n as int) =~= all);
    edges
}

} // verus!
