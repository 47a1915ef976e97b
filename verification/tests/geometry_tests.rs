use quadrender::camera::Vec3Milli;
use quadrender::geometry::{ColorMilli, GeometryBuffers, GeometryError, Vertex};

fn double_area(a: &Vertex, b: &Vertex, c: &Vertex) -> i64 {
    (b.position.x - a.position.x) * (c.position.y - a.position.y)
        - (b.position.y - a.position.y) * (c.position.x - a.position.x)
}

#[test]
fn quad_has_four_vertices_and_six_indices() {
    let g = GeometryBuffers::quad();
    assert_eq!(g.vertices.len(), 4);
    assert_eq!(g.indices, vec![0, 1, 2, 2, 3, 0]);
    for &i in &g.indices {
        assert!((i as usize) < g.vertices.len());
    }
}

#[test]
fn quad_corners_and_colors() {
    let g = GeometryBuffers::quad();
    assert_eq!(g.vertices[0].position, Vec3Milli { x: -500, y: -500, z: 0 });
    assert_eq!(g.vertices[1].position, Vec3Milli { x: 500, y: -500, z: 0 });
    assert_eq!(g.vertices[2].position, Vec3Milli { x: 500, y: 500, z: 0 });
    assert_eq!(g.vertices[3].position, Vec3Milli { x: -500, y: 500, z: 0 });
    assert_eq!(g.vertices[0].color, ColorMilli { r: 1000, g: 0, b: 0 });
    assert_eq!(g.vertices[1].color, ColorMilli { r: 0, g: 1000, b: 0 });
    assert_eq!(g.vertices[2].color, ColorMilli { r: 0, g: 0, b: 1000 });
    assert_eq!(g.vertices[3].color, ColorMilli { r: 1000, g: 1000, b: 1000 });
}

#[test]
fn quad_triangles_share_edge_and_cover_quad_once() {
    let g = GeometryBuffers::quad();
    // The shared diagonal is traversed as (2, 0) by the first triangle and
    // (0, 2) by the second.
    assert_eq!(g.indices[2], g.indices[3]);
    assert_eq!(g.indices[0], g.indices[5]);
    let t1 = double_area(
        &g.vertices[g.indices[0] as usize],
        &g.vertices[g.indices[1] as usize],
        &g.vertices[g.indices[2] as usize],
    );
    let t2 = double_area(
        &g.vertices[g.indices[3] as usize],
        &g.vertices[g.indices[4] as usize],
        &g.vertices[g.indices[5] as usize],
    );
    // Both wind counter-clockwise and together they cover exactly the
    // quad's area (side 1000 in thousandths, doubled).
    assert!(t1 > 0);
    assert!(t2 > 0);
    assert_eq!(t1, 1_000_000);
    assert_eq!(t2, 1_000_000);
    assert_eq!(t1 + t2, 2 * 1000 * 1000);
}

#[test]
fn geometry_rejects_out_of_range_index() {
    let g = GeometryBuffers::quad();
    let r = GeometryBuffers::new(g.vertices, vec![0, 4, 1]);
    assert!(matches!(r, Err(GeometryError::IndexOutOfRange)));
}

#[test]
fn geometry_accepts_valid_indices() {
    let g = GeometryBuffers::quad();
    let r = GeometryBuffers::new(g.vertices, vec![3, 2, 1]);
    assert!(r.is_ok());
    let b = r.unwrap();
    assert_eq!(b.indices, vec![3, 2, 1]);
}
