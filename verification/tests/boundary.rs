use std::collections::HashSet;

use wagyan::boundary::boundary_edges;

#[test]
fn boundary_edges_filters_shared_edges() {
    let indices = vec![0u16, 1, 2, 2, 1, 3];
    let edges: HashSet<(u16, u16)> = boundary_edges(&indices).into_iter().collect();

    let expected: HashSet<(u16, u16)> = [(0, 1), (2, 0), (3, 2), (1, 3)].into_iter().collect();

    assert_eq!(edges, expected);
}

#[test]
fn boundary_edges_come_in_list_order() {
    let indices = vec![0u16, 1, 2, 2, 1, 3];
    assert_eq!(boundary_edges(&indices), vec![(0, 1), (2, 0), (1, 3), (3, 2)]);
}

#[test]
fn boundary_of_nothing_is_empty() {
    assert_eq!(boundary_edges(&[]), vec![]);
}

#[test]
fn single_triangle_is_all_boundary() {
    assert_eq!(boundary_edges(&[5, 9, 7]), vec![(5, 9), (9, 7), (7, 5)]);
}

#[test]
fn boundary_edges_keep_triangle_winding() {
    // The same square, wound clockwise.
    let indices = vec![0u16, 2, 1, 0, 3, 2];
    assert_eq!(boundary_edges(&indices), vec![(2, 1), (1, 0), (0, 3), (3, 2)]);
}

#[test]
fn shared_edge_is_dropped_whatever_its_direction() {
    // Two triangles that both wind the shared edge from 0 to 1.
    let indices = vec![0u16, 1, 2, 0, 1, 3];
    assert_eq!(boundary_edges(&indices), vec![(1, 2), (2, 0), (1, 3), (3, 0)]);
}

#[test]
fn edge_of_three_triangles_is_dropped() {
    let indices = vec![0u16, 1, 2, 1, 0, 3, 0, 1, 4];
    let edges = boundary_edges(&indices);
    assert!(!edges.contains(&(0, 1)));
    assert!(!edges.contains(&(1, 0)));
    assert_eq!(edges, vec![(1, 2), (2, 0), (0, 3), (3, 1), (1, 4), (4, 0)]);
}

#[test]
fn closed_surface_has_no_boundary() {
    // The four faces of a tetrahedron.
    let indices = vec![0u16, 1, 2, 0, 3, 1, 1, 3, 2, 2, 3, 0];
    assert_eq!(boundary_edges(&indices), vec![]);
}

#[test]
fn degenerate_triangle_keeps_its_loop_edge() {
    // Corners 0, 0, 1: the edge from 0 to 0 occurs once, the edge 0-1 twice.
    assert_eq!(boundary_edges(&[0, 0, 1]), vec![(0, 0)]);
}

#[test]
fn boundary_edges_are_pairwise_distinct() {
    // A fan of four triangles around vertex 0.
    let indices = vec![0u16, 1, 2, 0, 2, 3, 0, 3, 4, 0, 4, 5];
    let edges = boundary_edges(&indices);
    let keys: HashSet<(u16, u16)> =
        edges.iter().map(|&(a, b)| if a < b { (a, b) } else { (b, a) }).collect();
    assert_eq!(keys.len(), edges.len());
    assert_eq!(edges, vec![(0, 1), (1, 2), (2, 3), (3, 4), (4, 5), (5, 0)]);
}

#[test]
fn largest_indices_are_told_apart() {
    let indices = vec![65535u16, 0, 65534, 65534, 0, 1];
    assert_eq!(
        boundary_edges(&indices),
        vec![(65535, 0), (65534, 65535), (0, 1), (1, 65534)]
    );
}
