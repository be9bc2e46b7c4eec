use chart_canvas::poly_line::{clamp_segments, finish_move, setup_move, LineCapStyle, LineJoinStyle, MAX_SEGMENTS, MIN_SEGMENTS};

#[test]
fn segment_counts_are_clamped() {
    assert_eq!(clamp_segments(0), MIN_SEGMENTS);
    assert_eq!(clamp_segments(3), 8);
    assert_eq!(clamp_segments(8), 8);
    assert_eq!(clamp_segments(100), 100);
    assert_eq!(clamp_segments(2048), 2048);
    assert_eq!(clamp_segments(5000), MAX_SEGMENTS);
}

#[test]
fn styles_compare() {
    assert_eq!(LineJoinStyle::Miter, LineJoinStyle::Miter);
    assert_ne!(LineJoinStyle::Bevel, LineJoinStyle::Round);
    assert_ne!(LineCapStyle::Butt, LineCapStyle::Rect);
}

#[test]
fn move_joins_two_strips_with_degenerate_vertices() {
    let mut out = vec![1, 2, 3];
    let idx = setup_move(&mut out, 0);
    assert_eq!(idx, 4);
    assert_eq!(out, vec![1, 2, 3, 3, 0]);
    out.push(7);
    out.push(8);
    finish_move(&mut out, idx);
    assert_eq!(out, vec![1, 2, 3, 3, 7, 7, 8]);
}

#[test]
fn move_without_earlier_output_does_nothing() {
    let mut out: Vec<i32> = vec![];
    let idx = setup_move(&mut out, 0);
    assert_eq!(idx, 0);
    assert!(out.is_empty());
    out.push(5);
    finish_move(&mut out, idx);
    assert_eq!(out, vec![5]);
}

#[test]
fn finish_move_without_new_vertices_keeps_gap() {
    let mut out = vec![1, 2];
    let idx = setup_move(&mut out, 0);
    finish_move(&mut out, idx);
    assert_eq!(out, vec![1, 2, 2, 0]);
}
