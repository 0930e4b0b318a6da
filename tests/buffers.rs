use shape_clicker::descriptor::ShapeDescriptor;
use shape_clicker::point::{Point, ONE};
use shape_clicker::render::{FeedbackRender, IndicesRender, TransformInfo};
use shape_clicker::shape::Shape;

#[test]
fn descriptor_byte_and_component_ranges() {
    let d = ShapeDescriptor { offset: 6, count: 3 };
    assert_eq!(d.offset_bytes(2), 48);
    assert_eq!(d.size_bytes(2), 24);
    assert_eq!(d.offset_vertex(2), 12);
    assert_eq!(d.size_vertex(2), 6);
    assert_eq!(d.vertex_range(2), 12..18);
    assert_eq!(d.offset_bytes(1), 24);
}

#[test]
fn indexed_renderer_shifts_indices_of_later_shapes() {
    let mut r = IndicesRender::new();
    r.add(&Shape::square(0));
    r.add(&Shape::square(1));
    assert_eq!(r.shape_count(), 2);
    assert_eq!(r.index_data(), &[0, 1, 2, 2, 3, 0, 4, 5, 6, 6, 7, 4]);
    assert_eq!(r.vertex_data().len(), 16);
    assert_eq!(&r.vertex_data()[0..4], &[-ONE, -ONE, -ONE, ONE]);
    assert_eq!(r.draw_range(0), (6, 0));
    assert_eq!(r.draw_range(1), (6, 24));
}

#[test]
fn feedback_renderer_flattens_indexed_vertices() {
    let mut r = FeedbackRender::new();
    r.add(&Shape::square(0));
    let tri = Shape { vertices: vec![Point::new(1, 2), Point::new(3, 4), Point::new(5, 6)], indices: vec![2, 0, 1], texture_id: 0 };
    r.add(&tri);
    assert_eq!(r.shape_count(), 2);
    assert_eq!(r.vertex_data().len(), 18);
    assert_eq!(r.read_vertices(0), &[-ONE, -ONE, -ONE, ONE, ONE, ONE, ONE, ONE, ONE, -ONE, -ONE, -ONE]);
    assert_eq!(r.read_vertices(1), &[5, 6, 1, 2, 3, 4]);
    assert_eq!(r.draw_range(0), (0, 6));
    assert_eq!(r.draw_range(1), (6, 3));
    assert_eq!(r.readback_range(0), (0, 48));
    assert_eq!(r.readback_range(1), (48, 24));
}

#[test]
fn feedback_readback_replaces_only_its_run() {
    let mut r = FeedbackRender::new();
    r.add(&Shape::square(0));
    let tri = Shape { vertices: vec![Point::new(1, 2), Point::new(3, 4), Point::new(5, 6)], indices: vec![0, 1, 2], texture_id: 0 };
    r.add(&tri);
    r.store_readback(1, &[10, 20, 30, 40, 50, 60]);
    assert_eq!(r.read_vertices(1), &[10, 20, 30, 40, 50, 60]);
    assert_eq!(r.read_vertices(0)[0], -ONE);
    assert_eq!(r.vertex_data().len(), 18);
}

#[test]
fn matrices_are_column_major() {
    let t = TransformInfo(ONE / 2, 7);
    assert_eq!(
        t.translation_matrix(),
        [ONE, 0, 0, 0, 0, ONE, 0, 0, 0, 0, ONE, 0, ONE / 2, 7, 0, ONE]
    );
    let s = TransformInfo(ONE / 4, ONE / 4);
    assert_eq!(
        s.scale_matrix(),
        [ONE / 4, 0, 0, 0, 0, ONE / 4, 0, 0, 0, 0, ONE, 0, 0, 0, 0, ONE]
    );
    assert_eq!(TransformInfo::id(), [ONE, 0, 0, 0, 0, ONE, 0, 0, 0, 0, ONE, 0, 0, 0, 0, ONE]);
}

fn apply(m: &[i32; 16], v: [i64; 4]) -> [i64; 4] {
    let mut out = [0i64; 4];
    for r in 0..4 {
        for c in 0..4 {
            out[r] += m[4 * c + r] as i64 * v[c];
        }
        out[r] /= ONE as i64;
    }
    out
}

#[test]
fn translation_then_scale_composition() {
    let one = ONE as i64;
    let t = TransformInfo(ONE / 2, 0);
    assert_eq!(apply(&t.translation_matrix(), [0, 0, 0, one]), [one / 2, 0, 0, one]);
    let s = TransformInfo(ONE / 4, ONE / 4);
    assert_eq!(apply(&s.scale_matrix(), [one, one, 0, one]), [one / 4, one / 4, 0, one]);
    let t = TransformInfo(-ONE / 3, ONE / 5);
    let scaled = apply(&s.scale_matrix(), [one, one, 0, one]);
    let moved = apply(&t.translation_matrix(), scaled);
    assert_eq!(moved, [(-ONE / 3) as i64 + one / 4, (ONE / 5) as i64 + one / 4, 0, one]);
}
