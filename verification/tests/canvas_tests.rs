use chart_canvas::canvas::{speed_test_edges, speed_test_glyphs};

#[test]
fn speed_test_glyphs_alternate() {
    assert_eq!(speed_test_glyphs(0), Vec::<bool>::new());
    assert_eq!(speed_test_glyphs(2), vec![false, true, true, false]);
    let g = speed_test_glyphs(3);
    assert_eq!(g.len(), 9);
    assert_eq!(g[3 * 1 + 2], true);
    assert_eq!(g[3 * 2 + 2], false);
}

#[test]
fn speed_test_edges_join_columns() {
    assert!(speed_test_edges(0).is_empty());
    assert!(speed_test_edges(1).is_empty());
    assert_eq!(speed_test_edges(2), vec![(2, 0), (2, 1)]);
    assert_eq!(
        speed_test_edges(3),
        vec![(3, 0), (3, 1), (3, 2), (6, 3), (6, 4), (6, 5)]
    );
}
