use renderer::mesh::{Mesh, MeshError, Vertex};

fn vert(p: [f32; 3]) -> Vertex {
    let mut data = [0u8; 12];
    for (i, c) in p.iter().enumerate() {
        data[i * 4..i * 4 + 4].copy_from_slice(&c.to_le_bytes());
    }
    Vertex { data }
}

fn triangle_vertices() -> Vec<Vertex> {
    vec![
        vert([-0.5, -0.5, 1.0]),
        vert([0.5, -0.5, 1.0]),
        vert([0.0, 0.5, 1.0]),
    ]
}

#[test]
fn mesh_with_id_accepts_valid_indices() {
    let mesh = Mesh::with_id(7, triangle_vertices(), vec![0, 1, 2]).unwrap();
    assert_eq!(mesh.id(), 7);
    assert_eq!(mesh.index_count(), 3);
    assert_eq!(mesh.vertex_count(), 3);
}

#[test]
fn mesh_rejects_out_of_range_index() {
    let r = Mesh::with_id(1, triangle_vertices(), vec![0, 1, 3]);
    assert_eq!(r.unwrap_err(), MeshError::IndexOutOfRange);
}

#[test]
fn mesh_rejects_index_equal_to_vertex_count() {
    let r = Mesh::with_id(1, triangle_vertices(), vec![3]);
    assert_eq!(r.unwrap_err(), MeshError::IndexOutOfRange);
}

#[test]
fn mesh_accepts_highest_valid_index() {
    let mesh = Mesh::with_id(1, triangle_vertices(), vec![2]).unwrap();
    assert_eq!(mesh.index_count(), 1);
}

#[test]
fn mesh_accepts_empty_geometry() {
    let mesh = Mesh::with_id(0, Vec::new(), Vec::new()).unwrap();
    assert_eq!(mesh.index_count(), 0);
    assert_eq!(mesh.vertex_count(), 0);
    assert!(mesh.vertex_data().is_empty());
    assert!(mesh.index_data().is_empty());
}

#[test]
fn mesh_new_draws_fresh_identities() {
    let a = Mesh::new(triangle_vertices(), vec![0, 1, 2]).unwrap();
    let b = Mesh::new(triangle_vertices(), vec![0, 1, 2]).unwrap();
    // Identities are 128-bit random draws; two equal draws would mean
    // the identity source is not drawing at all.
    assert_ne!(a.id(), b.id());
}

#[test]
fn vertex_data_flattens_records_in_order() {
    let a = Vertex { data: [1, 2, 3, 4, 5, 6, 7, 8, 9, 10, 11, 12] };
    let b = Vertex { data: [21, 22, 23, 24, 25, 26, 27, 28, 29, 30, 31, 32] };
    let mesh = Mesh::with_id(3, vec![a, b], vec![0, 1]).unwrap();
    let expected: Vec<u8> = a.data.iter().chain(b.data.iter()).copied().collect();
    assert_eq!(mesh.vertex_data(), expected);
}

#[test]
fn vertex_data_matches_float_records() {
    let mesh = Mesh::with_id(3, triangle_vertices(), vec![0, 1, 2]).unwrap();
    let floats: Vec<f32> = vec![-0.5, -0.5, 1.0, 0.5, -0.5, 1.0, 0.0, 0.5, 1.0];
    let expected: Vec<u8> = floats.iter().flat_map(|f| f.to_le_bytes()).collect();
    assert_eq!(mesh.vertex_data(), expected);
}

#[test]
fn index_data_is_little_endian_pairs() {
    let mut vertices = Vec::new();
    for _ in 0..0x200 {
        vertices.push(vert([0.0, 0.0, 0.0]));
    }
    let mesh = Mesh::with_id(5, vertices, vec![0x0102, 0x01FF, 0]).unwrap();
    assert_eq!(mesh.index_data(), vec![0x02, 0x01, 0xFF, 0x01, 0x00, 0x00]);
}
