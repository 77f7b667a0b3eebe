use wagyan::mesh::{rectangle_mesh, Mesh2D, MeshError, Point2};

#[test]
fn mesh_of_whole_triangles_in_range_is_built() {
    let mesh = Mesh2D::new(vec!['a', 'b', 'c', 'd'], vec![0u16, 1, 2, 2, 1, 3]).unwrap();
    assert_eq!(mesh.vertices, vec!['a', 'b', 'c', 'd']);
    assert_eq!(mesh.indices, vec![0u16, 1, 2, 2, 1, 3]);
    assert_eq!(mesh.triangle_count(), 2);
}

#[test]
fn empty_mesh_is_built() {
    let mesh = Mesh2D::new(Vec::<u8>::new(), Vec::new()).unwrap();
    assert_eq!(mesh.triangle_count(), 0);
}

#[test]
fn vertices_without_triangles_are_a_mesh() {
    let mesh = Mesh2D::new(vec![1u8, 2, 3], Vec::new()).unwrap();
    assert_eq!(mesh.vertices.len(), 3);
    assert_eq!(mesh.triangle_count(), 0);
}

#[test]
fn partial_triangle_is_refused() {
    let made = Mesh2D::new(vec![0u8; 3], vec![0u16, 1, 2, 0]);
    assert_eq!(made.err(), Some(MeshError::PartialTriangle { index_count: 4 }));
}

#[test]
fn first_index_out_of_range_is_named() {
    let made = Mesh2D::new(vec![0u8; 3], vec![0u16, 1, 2, 2, 3, 7]);
    assert_eq!(
        made.err(),
        Some(MeshError::IndexOutOfRange { position: 4, index: 3, vertex_count: 3 })
    );
}

#[test]
fn partial_triangle_is_reported_before_range() {
    let made = Mesh2D::new(Vec::<u8>::new(), vec![9u16, 9]);
    assert_eq!(made.err(), Some(MeshError::PartialTriangle { index_count: 2 }));
}

#[test]
fn any_index_into_no_vertices_is_out_of_range() {
    let made = Mesh2D::new(Vec::<u8>::new(), vec![0u16, 0, 0]);
    assert_eq!(
        made.err(),
        Some(MeshError::IndexOutOfRange { position: 0, index: 0, vertex_count: 0 })
    );
}

#[test]
fn rectangle_mesh_has_four_corners_and_two_triangles() {
    let mesh = rectangle_mesh(-1.5f32, 2.5f32, -3.0f32, 4.0f32);
    assert_eq!(
        mesh.vertices,
        vec![
            Point2 { x: -1.5, y: -3.0 },
            Point2 { x: 2.5, y: -3.0 },
            Point2 { x: 2.5, y: 4.0 },
            Point2 { x: -1.5, y: 4.0 },
        ]
    );
    assert_eq!(mesh.indices, vec![0u16, 1, 2, 0, 2, 3]);
    assert_eq!(mesh.triangle_count(), 2);
}

#[test]
fn rectangle_mesh_passes_the_mesh_check() {
    let mesh = rectangle_mesh(0i32, 10, 0, 5);
    let checked = Mesh2D::new(mesh.vertices.clone(), mesh.indices.clone());
    assert!(checked.is_ok());
}

#[test]
fn rectangle_mesh_winds_counter_clockwise() {
    let mesh = rectangle_mesh(0.0f64, 4.0, 0.0, 3.0);
    for t in 0..mesh.triangle_count() {
        let a = mesh.vertices[mesh.indices[3 * t] as usize];
        let b = mesh.vertices[mesh.indices[3 * t + 1] as usize];
        let c = mesh.vertices[mesh.indices[3 * t + 2] as usize];
        let doubled_area = (b.x - a.x) * (c.y - a.y) - (b.y - a.y) * (c.x - a.x);
        assert_eq!(doubled_area, 12.0);
    }
}
