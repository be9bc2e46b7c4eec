use chart_canvas::convex_hull::ray_count;

#[test]
fn ray_count_per_half_spacing() {
    assert_eq!(ray_count(100, 60, 4), 80);
    assert_eq!(ray_count(100, 60, 5), 80);
    assert_eq!(ray_count(7, 0, 2), 7);
    assert_eq!(ray_count(0, 0, 10), 0);
}
