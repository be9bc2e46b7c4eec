use chart_canvas::range::MemoryRange;

fn bounds(r: MemoryRange) -> (usize, usize) {
    (r.min, r.max)
}

#[test]
fn empty_range_is_empty() {
    let mut r = MemoryRange::empty();
    assert_eq!(bounds(r), (usize::MAX, 0));
    assert!(r.is_empty());
}

#[test]
fn new_with_inverted_bounds_is_the_empty_range() {
    let mut r = MemoryRange::new(5, 3);
    assert_eq!(bounds(r), (usize::MAX, 0));
    assert!(r.is_empty());
    let mut same = MemoryRange::new(4, 4);
    assert_eq!(bounds(same), (usize::MAX, 0));
    assert!(same.is_empty());
}

#[test]
fn new_keeps_proper_bounds() {
    let mut r = MemoryRange::new(2, 7);
    assert_eq!(bounds(r), (2, 7));
    assert!(!r.is_empty());
}

#[test]
fn set_empty_resets() {
    let mut r = MemoryRange::new(2, 7);
    r.set_empty();
    assert_eq!(bounds(r), (usize::MAX, 0));
    assert!(r.is_empty());
}

#[test]
fn include_int_into_empty_gives_one_index() {
    let mut r = MemoryRange::empty();
    r.include_int(9);
    assert_eq!(bounds(r), (9, 10));
    assert!(!r.is_empty());
}

#[test]
fn include_int_extends_both_ways() {
    let mut r = MemoryRange::new(5, 8);
    r.include_int(2);
    assert_eq!(bounds(r), (2, 8));
    r.include_int(12);
    assert_eq!(bounds(r), (2, 13));
    r.include_int(6);
    assert_eq!(bounds(r), (2, 13));
}

#[test]
fn include_range_takes_the_hull() {
    let mut r = MemoryRange::new(5, 8);
    r.include_range(MemoryRange::new(10, 20));
    assert_eq!(bounds(r), (5, 20));
    r.include_range(MemoryRange::new(1, 3));
    assert_eq!(bounds(r), (1, 20));
}

#[test]
fn include_range_empty_is_neutral() {
    let mut r = MemoryRange::new(5, 8);
    r.include_range(MemoryRange::empty());
    assert_eq!(bounds(r), (5, 8));
    let mut e = MemoryRange::empty();
    e.include_range(MemoryRange::new(5, 8));
    assert_eq!(bounds(e), (5, 8));
}

#[test]
fn include_range_is_commutative_on_examples() {
    let a = MemoryRange::new(3, 9);
    let b = MemoryRange::new(7, 15);
    let mut ab = a;
    ab.include_range(b);
    let mut ba = b;
    ba.include_range(a);
    assert_eq!(bounds(ab), bounds(ba));
    assert_eq!(bounds(ab), (3, 15));
}

#[test]
fn include_int_is_include_of_one_index_range() {
    let mut a = MemoryRange::new(3, 9);
    let mut b = a;
    a.include_int(20);
    b.include_range(MemoryRange::from(20usize));
    assert_eq!(bounds(a), bounds(b));
}

#[test]
fn conversions_from_indices_and_ranges() {
    assert_eq!(bounds(MemoryRange::from(5usize)), (5, 6));
    assert_eq!(bounds(MemoryRange::from(2usize..5)), (2, 6));
    assert_eq!(bounds(MemoryRange::from(3usize..)), (3, usize::MAX));
    assert_eq!(bounds(MemoryRange::from(..)), (0, usize::MAX));
    assert_eq!(bounds(MemoryRange::from(..5usize)), (0, 5));
    assert_eq!(bounds(MemoryRange::from(..=5usize)), (0, 6));
    assert_eq!(bounds(MemoryRange::from(..0usize)), (usize::MAX, 0));
}

#[test]
fn conversion_of_last_index_wraps_to_empty() {
    assert_eq!(bounds(MemoryRange::from(usize::MAX)), (usize::MAX, 0));
    assert_eq!(bounds(MemoryRange::from(4usize..usize::MAX)), (usize::MAX, 0));
}
