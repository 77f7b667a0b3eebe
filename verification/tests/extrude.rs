use std::collections::HashSet;

use wagyan::boundary::boundary_edges;
use wagyan::extrude::{extrude_mesh, facet_indices, Corner, Facet, Level};
use wagyan::mesh::{rectangle_mesh, Mesh2D, Point2};

fn top(vertex: u16) -> Corner {
    Corner { vertex, level: Level::Top }
}

fn bottom(vertex: u16) -> Corner {
    Corner { vertex, level: Level::Bottom }
}

fn facet(a: Corner, b: Corner, c: Corner) -> Facet {
    Facet { a, b, c }
}

fn height(level: Level, depth: f32, offset: f32) -> f32 {
    match level {
        Level::Top => depth * 0.5 + offset,
        Level::Bottom => -depth * 0.5 + offset,
    }
}

fn square() -> Mesh2D<Point2<f32>> {
    rectangle_mesh(0.0, 1.0, 0.0, 1.0)
}

#[test]
fn single_triangle_extrudes_to_eight_facets() {
    let mesh = Mesh2D::new(vec![(); 3], vec![0u16, 1, 2]).unwrap();
    assert_eq!(
        extrude_mesh(&mesh),
        vec![
            facet(top(0), top(1), top(2)),
            facet(bottom(2), bottom(1), bottom(0)),
            facet(top(0), top(1), bottom(1)),
            facet(top(0), bottom(1), bottom(0)),
            facet(top(1), top(2), bottom(2)),
            facet(top(1), bottom(2), bottom(1)),
            facet(top(2), top(0), bottom(0)),
            facet(top(2), bottom(0), bottom(2)),
        ]
    );
}

#[test]
fn square_extrudes_to_caps_and_four_walls() {
    let facets = extrude_mesh(&square());
    assert_eq!(
        facets,
        vec![
            facet(top(0), top(1), top(2)),
            facet(top(0), top(2), top(3)),
            facet(bottom(2), bottom(1), bottom(0)),
            facet(bottom(3), bottom(2), bottom(0)),
            facet(top(0), top(1), bottom(1)),
            facet(top(0), bottom(1), bottom(0)),
            facet(top(1), top(2), bottom(2)),
            facet(top(1), bottom(2), bottom(1)),
            facet(top(2), top(3), bottom(3)),
            facet(top(2), bottom(3), bottom(2)),
            facet(top(3), top(0), bottom(0)),
            facet(top(3), bottom(0), bottom(3)),
        ]
    );
}

#[test]
fn empty_mesh_extrudes_to_nothing() {
    let mesh = Mesh2D::new(Vec::<u8>::new(), Vec::new()).unwrap();
    assert_eq!(extrude_mesh(&mesh), vec![]);
}

#[test]
fn caps_lie_at_plus_and_minus_half_the_depth() {
    let mesh = square();
    let triangles = mesh.triangle_count();
    let facets = extrude_mesh(&mesh);
    let depth = 2.0f32;
    for f in &facets[..triangles] {
        for corner in [f.a, f.b, f.c] {
            assert_eq!(height(corner.level, depth, 0.0), 1.0);
        }
    }
    for f in &facets[triangles..2 * triangles] {
        for corner in [f.a, f.b, f.c] {
            assert_eq!(height(corner.level, depth, 0.0), -1.0);
        }
    }
}

#[test]
fn solid_spans_the_depth_and_no_more() {
    let facets = extrude_mesh(&square());
    let depth = 2.0f32;
    let mut lowest = f32::INFINITY;
    let mut highest = f32::NEG_INFINITY;
    for f in &facets {
        for corner in [f.a, f.b, f.c] {
            let z = height(corner.level, depth, 0.0);
            lowest = lowest.min(z);
            highest = highest.max(z);
        }
    }
    assert_eq!(lowest, -1.0);
    assert_eq!(highest, 1.0);
}

#[test]
fn plate_behind_text_touches_it() {
    let text_depth = 10.0f32;
    let plate_depth = 3.0f32;
    let plate_offset = -(text_depth * 0.5 + plate_depth * 0.5);
    assert_eq!(height(Level::Top, plate_depth, plate_offset), height(Level::Bottom, text_depth, 0.0));
    assert_eq!(height(Level::Bottom, plate_depth, plate_offset), -8.0);
}

#[test]
fn every_wall_facet_touches_both_faces() {
    let mesh = square();
    let triangles = mesh.triangle_count();
    let facets = extrude_mesh(&mesh);
    for f in &facets[2 * triangles..] {
        let levels = [f.a.level, f.b.level, f.c.level];
        assert!(levels.contains(&Level::Top));
        assert!(levels.contains(&Level::Bottom));
    }
}

#[test]
fn every_corner_names_a_vertex() {
    let mesh = Mesh2D::new(vec![(); 6], vec![0u16, 1, 2, 2, 1, 3, 3, 4, 5]).unwrap();
    for f in extrude_mesh(&mesh) {
        for corner in [f.a, f.b, f.c] {
            assert!((corner.vertex as usize) < mesh.vertices.len());
        }
    }
}

#[test]
fn facet_count_is_two_per_triangle_and_two_per_boundary_edge() {
    let mesh = Mesh2D::new(vec![(); 6], vec![0u16, 1, 2, 2, 1, 3, 3, 4, 5]).unwrap();
    let edges = boundary_edges(&mesh.indices);
    assert_eq!(edges.len(), 7);
    assert_eq!(extrude_mesh(&mesh).len(), 2 * 3 + 2 * 7);
}

#[test]
fn bottom_cap_reverses_the_top_cap() {
    let mesh = Mesh2D::new(vec![(); 4], vec![0u16, 1, 2, 2, 1, 3]).unwrap();
    let triangles = mesh.triangle_count();
    let facets = extrude_mesh(&mesh);
    for t in 0..triangles {
        let upper = facets[t];
        let lower = facets[triangles + t];
        assert_eq!(
            (lower.a.vertex, lower.b.vertex, lower.c.vertex),
            (upper.c.vertex, upper.b.vertex, upper.a.vertex)
        );
    }
}

#[test]
fn facet_indices_lists_corners_in_order() {
    let facets = vec![facet(top(4), bottom(5), top(6)), facet(bottom(1), bottom(2), top(3))];
    assert_eq!(facet_indices(&facets), vec![4u16, 5, 6, 1, 2, 3]);
    assert_eq!(facet_indices(&[]), Vec::<u16>::new());
}

#[test]
fn top_cap_of_square_gives_back_its_contour() {
    let mesh = square();
    let triangles = mesh.triangle_count();
    let facets = extrude_mesh(&mesh);
    let cap_indices = facet_indices(&facets[..triangles]);
    assert_eq!(cap_indices, mesh.indices);
    let contour: HashSet<(u16, u16)> = boundary_edges(&cap_indices).into_iter().collect();
    let expected: HashSet<(u16, u16)> = [(0, 1), (1, 2), (2, 3), (3, 0)].into_iter().collect();
    assert_eq!(contour, expected);
}

fn wall_normals_toward_centre(mesh: &Mesh2D<Point2<f32>>) -> Vec<f32> {
    let triangles = mesh.triangle_count();
    let facets = extrude_mesh(mesh);
    let place = |corner: Corner| -> [f32; 3] {
        let p = mesh.vertices[corner.vertex as usize];
        [p.x, p.y, height(corner.level, 2.0, 0.0)]
    };
    let mut toward: Vec<f32> = Vec::new();
    for f in &facets[2 * triangles..] {
        let (a, b, c) = (place(f.a), place(f.b), place(f.c));
        let u = [b[0] - a[0], b[1] - a[1], b[2] - a[2]];
        let v = [c[0] - a[0], c[1] - a[1], c[2] - a[2]];
        let normal = [
            u[1] * v[2] - u[2] * v[1],
            u[2] * v[0] - u[0] * v[2],
            u[0] * v[1] - u[1] * v[0],
        ];
        assert_eq!(normal[2], 0.0);
        let centre = [0.5 - (a[0] + b[0] + c[0]) / 3.0, 0.5 - (a[1] + b[1] + c[1]) / 3.0];
        toward.push(normal[0] * centre[0] + normal[1] * centre[1]);
    }
    toward
}

#[test]
fn walls_stand_upright_and_turn_with_the_contour() {
    // Each wall facet has its normal on the left of its edge, seen from
    // above: toward the centre where the contour runs counter-clockwise,
    // away from it where the contour runs clockwise.
    let counter_clockwise = square();
    let toward = wall_normals_toward_centre(&counter_clockwise);
    assert_eq!(toward.len(), 8);
    assert!(toward.iter().all(|t| *t > 0.0));

    let clockwise =
        Mesh2D::new(counter_clockwise.vertices.clone(), vec![0u16, 2, 1, 0, 3, 2]).unwrap();
    let away = wall_normals_toward_centre(&clockwise);
    assert_eq!(away.len(), 8);
    assert!(away.iter().all(|t| *t < 0.0));
}

#[test]
fn caps_of_square_face_up_and_down() {
    let mesh = square();
    let triangles = mesh.triangle_count();
    let facets = extrude_mesh(&mesh);
    let place = |corner: Corner| -> [f32; 3] {
        let p = mesh.vertices[corner.vertex as usize];
        [p.x, p.y, height(corner.level, 2.0, 0.0)]
    };
    for (i, f) in facets[..2 * triangles].iter().enumerate() {
        let (a, b, c) = (place(f.a), place(f.b), place(f.c));
        let turn = (b[0] - a[0]) * (c[1] - a[1]) - (b[1] - a[1]) * (c[0] - a[0]);
        if i < triangles {
            assert!(turn > 0.0);
        } else {
            assert!(turn < 0.0);
        }
    }
}
