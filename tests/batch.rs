use latent::batch::{circle_rim_len, FrameBatch, RenderError};

#[test]
fn primitives_outside_a_frame_are_refused() {
    let mut b: FrameBatch<u32> = FrameBatch::new(800, 600, 64);
    assert!(!b.in_frame());
    assert_eq!(b.push_triangle(1, 2, 3), Err(RenderError::NotInFrame));
    assert_eq!(b.push_rectangle(1, 2, 3, 4), Err(RenderError::NotInFrame));
    assert_eq!(b.push_fan(0, &vec![1, 2, 3]), Err(RenderError::NotInFrame));
    assert_eq!(b.end_frame(), Err(RenderError::NotInFrame));
    assert_eq!(b.vertex_count(), 0);
}

#[test]
fn rectangle_emits_six_vertices_in_order() {
    let mut b: FrameBatch<u32> = FrameBatch::new(800, 600, 64);
    b.begin_frame();
    // top-left, top-right, bottom-left, bottom-right
    assert_eq!(b.push_rectangle(10, 11, 12, 13), Ok(()));
    assert_eq!(b.vertex_count(), 6);
    // Both triangles share the top-left/bottom-right diagonal.
    assert_eq!(b.vertices().clone(), vec![10, 12, 13, 10, 13, 11]);
}

#[test]
fn triangle_emits_three_vertices() {
    let mut b: FrameBatch<u32> = FrameBatch::new(800, 600, 64);
    b.begin_frame();
    assert_eq!(b.push_triangle(7, 8, 9), Ok(()));
    assert_eq!(b.vertices().clone(), vec![7, 8, 9]);
}

#[test]
fn fan_emits_three_vertices_per_segment() {
    let mut b: FrameBatch<u32> = FrameBatch::new(800, 600, 64);
    b.begin_frame();
    // A rim of four points spans three segments.
    assert_eq!(b.push_fan(0, &vec![1, 2, 3, 4]), Ok(()));
    assert_eq!(b.vertex_count(), 9);
    assert_eq!(b.vertices().clone(), vec![0, 1, 2, 0, 2, 3, 0, 3, 4]);
}

#[test]
fn fan_with_ten_segments() {
    let mut b: FrameBatch<u32> = FrameBatch::new(800, 600, 64);
    b.begin_frame();
    let rim: Vec<u32> = (0..11).collect();
    b.push_fan(100, &rim).unwrap();
    assert_eq!(b.vertex_count(), 30);
}

#[test]
fn degenerate_fans_emit_nothing() {
    let mut b: FrameBatch<u32> = FrameBatch::new(800, 600, 64);
    b.begin_frame();
    assert_eq!(b.push_fan(0, &vec![5]), Ok(()));
    assert_eq!(b.push_fan(0, &Vec::new()), Ok(()));
    assert_eq!(b.vertex_count(), 0);
    assert_eq!(b.end_frame(), Ok(0));
}

#[test]
fn end_frame_within_capacity_returns_count() {
    let mut b: FrameBatch<u32> = FrameBatch::new(800, 600, 9);
    b.begin_frame();
    b.push_rectangle(1, 2, 3, 4).unwrap();
    b.push_triangle(5, 6, 7).unwrap();
    assert_eq!(b.end_frame(), Ok(9));
    assert!(!b.in_frame());
    assert_eq!(b.vertices().len(), 9);
}

#[test]
fn end_frame_over_capacity_reports_error() {
    let mut b: FrameBatch<u32> = FrameBatch::new(800, 600, 8);
    b.begin_frame();
    b.push_rectangle(1, 2, 3, 4).unwrap();
    b.push_triangle(5, 6, 7).unwrap();
    assert_eq!(
        b.end_frame(),
        Err(RenderError::CapacityExceeded { count: 9, max_vertices: 8 })
    );
    assert!(!b.in_frame());
    assert_eq!(b.max_vertices(), 8);
}

#[test]
fn begin_frame_clears_previous_vertices() {
    let mut b: FrameBatch<u32> = FrameBatch::new(800, 600, 64);
    b.begin_frame();
    b.push_triangle(1, 2, 3).unwrap();
    assert_eq!(b.end_frame(), Ok(3));
    b.begin_frame();
    assert_eq!(b.vertex_count(), 0);
    assert_eq!(b.end_frame(), Ok(0));
}

#[test]
fn resize_mid_frame_applies_to_next_frame() {
    let mut b: FrameBatch<u32> = FrameBatch::new(800, 600, 64);
    b.begin_frame();
    assert_eq!(b.surface_size(), (800, 600));
    b.resize(1024, 768);
    assert_eq!(b.surface_size(), (800, 600));
    b.push_triangle(1, 2, 3).unwrap();
    assert_eq!(b.surface_size(), (800, 600));
    b.end_frame().unwrap();
    b.begin_frame();
    assert_eq!(b.surface_size(), (1024, 768));
}

#[test]
fn resize_between_frames_applies_to_next_frame() {
    let mut b: FrameBatch<u32> = FrameBatch::new(800, 600, 64);
    b.resize(640, 480);
    b.begin_frame();
    assert_eq!(b.surface_size(), (640, 480));
}

#[test]
fn resize_to_zero_is_ignored() {
    let mut b: FrameBatch<u32> = FrameBatch::new(800, 600, 64);
    b.resize(0, 480);
    b.resize(640, 0);
    b.begin_frame();
    assert_eq!(b.surface_size(), (800, 600));
}

#[test]
fn circle_rim_lengths() {
    assert_eq!(circle_rim_len(0), 0);
    assert_eq!(circle_rim_len(1), 2);
    assert_eq!(circle_rim_len(10), 11);
}

#[test]
fn circle_of_n_segments_emits_three_n_vertices() {
    let mut b: FrameBatch<u32> = FrameBatch::new(800, 600, 64);
    b.begin_frame();
    for n in [0usize, 1, 3, 10] {
        let before = b.vertex_count();
        let rim: Vec<u32> = (0..circle_rim_len(n) as u32).collect();
        b.push_fan(99, &rim).unwrap();
        assert_eq!(b.vertex_count() - before, 3 * n);
    }
}
