use chart_canvas::path_ops::{footile_path_to_lyon_path, lyon_path_to_footile_path, PathEvent, PathOp};

fn ops() -> Vec<PathOp<(f32, f32)>> {
    vec![
        PathOp::Move((1.0, 1.0)),
        PathOp::Line((2.0, 1.0)),
        PathOp::Quad((3.0, 2.0), (2.0, 3.0)),
        PathOp::Cubic((1.0, 4.0), (0.0, 3.0), (0.5, 2.0)),
        PathOp::Close,
        PathOp::Line((5.0, 5.0)),
    ]
}

#[test]
fn ops_become_events_with_start_points() {
    let events = footile_path_to_lyon_path(&ops(), (0.0, 0.0));
    assert_eq!(
        events,
        vec![
            PathEvent::Begin { at: (1.0, 1.0) },
            PathEvent::Line { from: (1.0, 1.0), to: (2.0, 1.0) },
            PathEvent::Quadratic { from: (2.0, 1.0), ctrl: (3.0, 2.0), to: (2.0, 3.0) },
            PathEvent::Cubic { from: (2.0, 3.0), ctrl1: (1.0, 4.0), ctrl2: (0.0, 3.0), to: (0.5, 2.0) },
            PathEvent::End { last: (0.5, 2.0), first: (1.0, 1.0), close: true },
            PathEvent::Line { from: (0.5, 2.0), to: (5.0, 5.0) },
        ]
    );
}

#[test]
fn line_before_move_starts_at_origin() {
    let events = footile_path_to_lyon_path(&[PathOp::Line((2, 2)), PathOp::Close], (0, 0));
    assert_eq!(
        events,
        vec![PathEvent::Line { from: (0, 0), to: (2, 2) }, PathEvent::End { last: (2, 2), first: (0, 0), close: true }]
    );
}

#[test]
fn open_ends_are_dropped() {
    let events = vec![
        PathEvent::Begin { at: (0, 0) },
        PathEvent::Line { from: (0, 0), to: (1, 0) },
        PathEvent::End { last: (1, 0), first: (0, 0), close: false },
        PathEvent::Begin { at: (2, 2) },
        PathEvent::End { last: (2, 2), first: (2, 2), close: true },
    ];
    assert_eq!(
        lyon_path_to_footile_path(&events),
        vec![PathOp::Move((0, 0)), PathOp::Line((1, 0)), PathOp::Move((2, 2)), PathOp::Close]
    );
}

#[test]
fn round_trip_returns_the_ops() {
    let o = ops();
    let back = lyon_path_to_footile_path(&footile_path_to_lyon_path(&o, (0.0, 0.0)));
    assert_eq!(back, o);
}
