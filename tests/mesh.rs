use sdl3cube::{add_and_get_index, append_quad, append_triangle, create_cube, Vertex};

fn cross(a: &Vertex, b: &Vertex, c: &Vertex) -> (i64, i64, i64) {
    let u = [
        (b.pos[0] - a.pos[0]) as i64,
        (b.pos[1] - a.pos[1]) as i64,
        (b.pos[2] - a.pos[2]) as i64,
    ];
    let v = [
        (c.pos[0] - a.pos[0]) as i64,
        (c.pos[1] - a.pos[1]) as i64,
        (c.pos[2] - a.pos[2]) as i64,
    ];
    (
        u[1] * v[2] - u[2] * v[1],
        u[2] * v[0] - u[0] * v[2],
        u[0] * v[1] - u[1] * v[0],
    )
}

#[test]
fn cube_at_origin_has_eight_vertices_and_36_indices() {
    let mut indices = Vec::new();
    let mut vertices = Vec::new();
    let range = create_cube([0, 0, 0], 10, &mut indices, &mut vertices);
    assert_eq!(vertices.len(), 8);
    assert_eq!(indices.len(), 36);
    assert_eq!(range, 0..36);
    assert!(indices.iter().all(|&i| i < 8));
}

#[test]
fn cube_triangles_are_not_degenerate() {
    let mut indices = Vec::new();
    let mut vertices = Vec::new();
    create_cube([0, 0, 0], 10, &mut indices, &mut vertices);
    for t in indices.chunks(3) {
        let n = cross(
            &vertices[t[0] as usize],
            &vertices[t[1] as usize],
            &vertices[t[2] as usize],
        );
        assert_ne!(n, (0, 0, 0));
    }
}

#[test]
fn cube_corners_span_the_half_extent() {
    let mut indices = Vec::new();
    let mut vertices = Vec::new();
    create_cube([1, -2, 3], 10, &mut indices, &mut vertices);
    assert_eq!(vertices[0], Vertex::new([-9, 8, -7, 0], [255, 0, 0, 255]));
    assert_eq!(vertices[1], Vertex::new([11, 8, -7, 0], [0, 255, 0, 255]));
    assert_eq!(vertices[2], Vertex::new([-9, -12, -7, 0], [0, 0, 255, 255]));
    assert_eq!(vertices[3], Vertex::new([11, -12, -7, 0], [255, 255, 0, 255]));
    assert_eq!(vertices[4], Vertex::new([-9, 8, 13, 0], [255, 0, 255, 255]));
    assert_eq!(vertices[5], Vertex::new([11, 8, 13, 0], [0, 255, 255, 255]));
    assert_eq!(vertices[6], Vertex::new([-9, -12, 13, 0], [255, 255, 255, 255]));
    assert_eq!(vertices[7], Vertex::new([11, -12, 13, 0], [0, 0, 0, 255]));
}

#[test]
fn cube_faces_in_order() {
    let mut indices = Vec::new();
    let mut vertices = Vec::new();
    create_cube([0, 0, 0], 1, &mut indices, &mut vertices);
    assert_eq!(
        indices,
        vec![
            0, 1, 2, 3, 2, 1, // back
            4, 6, 5, 7, 5, 6, // front
            0, 4, 1, 5, 1, 4, // top
            2, 3, 6, 7, 6, 3, // bottom
            4, 0, 6, 2, 6, 0, // left
            5, 7, 1, 3, 1, 7, // right
        ]
    );
}

#[test]
fn second_cube_refers_to_its_own_vertices() {
    let mut indices = Vec::new();
    let mut vertices = Vec::new();
    create_cube([0, 0, 0], 10, &mut indices, &mut vertices);
    let range = create_cube([100, 0, 0], 5, &mut indices, &mut vertices);
    assert_eq!(range, 36..72);
    assert_eq!(vertices.len(), 16);
    assert!(indices[36..].iter().all(|&i| (8..16).contains(&i)));
    assert_eq!(vertices[8].pos, [95, 5, -5, 0]);
}

#[test]
fn add_and_get_index_returns_position() {
    let mut v = vec![7u8, 8];
    assert_eq!(add_and_get_index(&mut v, 9), 2);
    assert_eq!(v, vec![7, 8, 9]);
}

#[test]
fn append_triangle_and_quad() {
    let mut indices = vec![42];
    append_triangle(1, 2, 3, &mut indices);
    assert_eq!(indices, vec![42, 1, 2, 3]);
    append_quad(10, 11, 12, 13, &mut indices);
    assert_eq!(indices, vec![42, 1, 2, 3, 10, 11, 12, 13, 12, 11]);
}
