use shape_clicker::point::{Point, ONE};
use shape_clicker::shape::Shape;

#[test]
fn screen_coords_map_to_device_space() {
    assert_eq!(Point::from_screen_coords(ONE / 2, ONE / 2), Point::new(0, 0));
    assert_eq!(Point::from_screen_coords(0, 0), Point::new(-ONE, ONE));
    assert_eq!(Point::from_screen_coords(ONE, ONE), Point::new(ONE, -ONE));
    assert_eq!(Point::from_screen_coords(ONE / 4, ONE / 4), Point::new(-ONE / 2, ONE / 2));
}

#[test]
fn square_has_four_corners_and_two_triangles() {
    let s = Shape::square(3);
    assert_eq!(
        s.vertices,
        vec![Point::new(-ONE, -ONE), Point::new(-ONE, ONE), Point::new(ONE, ONE), Point::new(ONE, -ONE)]
    );
    assert_eq!(s.indices, vec![0, 1, 2, 2, 3, 0]);
    assert_eq!(s.texture_id, 3);
}

#[test]
fn unit_square_contains_centre_not_outside() {
    let s = Shape::square(0);
    assert!(s.contains(Point::new(0, 0)));
    assert!(!s.contains(Point::new(2 * ONE, 2 * ONE)));
    assert!(!s.contains(Point::new(-2 * ONE, 0)));
    assert!(!s.contains(Point::new(0, 3 * ONE)));
    assert!(s.contains(Point::new(ONE / 2, -ONE / 2)));
}

#[test]
fn hit_test_on_corner_is_deterministic() {
    let s = Shape::square(0);
    let first = s.contains(Point::new(ONE, ONE));
    for _ in 0..10 {
        assert_eq!(s.contains(Point::new(ONE, ONE)), first);
    }
}

#[test]
fn hit_test_on_triangle() {
    let s = Shape {
        vertices: vec![Point::new(0, 0), Point::new(4 * ONE, 0), Point::new(0, 4 * ONE)],
        indices: vec![0, 1, 2],
        texture_id: 0,
    };
    assert!(s.contains(Point::new(ONE, ONE)));
    assert!(!s.contains(Point::new(3 * ONE, 3 * ONE)));
    assert!(!s.contains(Point::new(-ONE, ONE)));
}

#[test]
fn empty_polygon_contains_nothing() {
    let s = Shape { vertices: vec![], indices: vec![], texture_id: 0 };
    assert!(!s.contains(Point::new(0, 0)));
}

#[test]
fn update_vertices_writes_by_index_last_wins() {
    let mut s = Shape::square(0);
    // readback pairs in index order 0, 1, 2, 2, 3, 0
    let data = vec![10, 11, 20, 21, 30, 31, 32, 33, 40, 41, 50, 51];
    s.update_vertices(&data);
    assert_eq!(
        s.vertices,
        vec![Point::new(50, 51), Point::new(20, 21), Point::new(32, 33), Point::new(40, 41)]
    );
}

#[test]
fn update_vertices_with_partial_data_leaves_rest() {
    let mut s = Shape::square(0);
    s.update_vertices(&[7, 8, 9]);
    assert_eq!(s.vertices[0], Point::new(7, 8));
    assert_eq!(s.vertices[1], Point::new(-ONE, ONE));
    assert_eq!(s.vertices[3], Point::new(ONE, -ONE));
}

#[test]
fn duplicate_copies_all_fields() {
    let s = Shape::square(2);
    let d = s.duplicate();
    assert_eq!(d.vertices, s.vertices);
    assert_eq!(d.indices, s.indices);
    assert_eq!(d.texture_id, 2);
}
