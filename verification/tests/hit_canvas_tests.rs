use chart_canvas::hit_canvas::object_id_from_pixel;

#[test]
fn cleared_pixel_holds_no_object() {
    assert_eq!(object_id_from_pixel([0, 0, 0, 0]), None);
}

#[test]
fn object_ids_are_one_based_little_endian() {
    assert_eq!(object_id_from_pixel([1, 0, 0, 0]), Some(0));
    assert_eq!(object_id_from_pixel([2, 1, 0, 0]), Some(257));
    assert_eq!(object_id_from_pixel([0, 0, 0, 1]), Some(16777215));
    assert_eq!(object_id_from_pixel([255, 255, 255, 255]), Some(u32::MAX - 1));
}
