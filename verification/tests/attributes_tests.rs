use chart_canvas::attributes::{Attribute, Attributes, Type};

fn glyph_attributes() -> Attributes {
    let attrs: Vec<Attribute> = vec![
        Attribute::new("aPosition", 2, Type::Float),
        Attribute::new("aColor", 4, Type::Float),
        Attribute::new("aGlyphNumVertices", 1, Type::Short),
        Attribute::new("aGlyphDataIndex", 1, Type::Short),
    ];
    Attributes::new(Box::leak(attrs.into_boxed_slice()))
}

#[test]
fn type_sizes() {
    assert_eq!(Type::Float.size(), 4);
    assert_eq!(Type::Short.size(), 2);
}

#[test]
fn attribute_new_keeps_fields() {
    let a = Attribute::new("aScale", 1, Type::Float);
    assert_eq!(a.name, "aScale");
    assert_eq!(a.size, 1);
    assert_eq!(a.ty, Type::Float);
}

#[test]
fn offsets_and_stride() {
    let attrs = glyph_attributes();
    assert_eq!(attrs.offset(0), 0);
    assert_eq!(attrs.offset(1), 8);
    assert_eq!(attrs.offset(2), 24);
    assert_eq!(attrs.offset(3), 26);
    assert_eq!(attrs.offset(4), 28);
    assert_eq!(attrs.stride(), 28);
}

#[test]
fn empty_layout_has_zero_stride() {
    let attrs = Attributes::new(Box::leak(Vec::<Attribute>::new().into_boxed_slice()));
    assert_eq!(attrs.stride(), 0);
}

#[test]
fn vertex_layout_with_all_locations() {
    let attrs = glyph_attributes();
    let (pointers, missing) = attrs.vertex_layout(&[3, 0, 1, 2]);
    assert!(missing.is_none());
    assert_eq!(pointers.len(), 4);
    let p = pointers[1];
    assert_eq!(p.name, "aColor");
    assert_eq!(p.location, 0);
    assert_eq!(p.size, 4);
    assert_eq!(p.ty, Type::Float);
    assert_eq!(p.stride, 28);
    assert_eq!(p.offset, 8);
    assert_eq!(pointers[0].location, 3);
    assert_eq!(pointers[3].offset, 26);
    assert_eq!(pointers[3].ty, Type::Short);
}

#[test]
fn vertex_layout_stops_at_missing_attribute() {
    let attrs = glyph_attributes();
    let (pointers, missing) = attrs.vertex_layout(&[0, 1, -1, 2]);
    assert_eq!(missing, Some("aGlyphNumVertices"));
    assert_eq!(pointers.len(), 2);
    assert_eq!(pointers[1].name, "aColor");
}

#[test]
fn vertex_layout_first_attribute_missing() {
    let attrs = glyph_attributes();
    let (pointers, missing) = attrs.vertex_layout(&[-1, -1, -1, -1]);
    assert_eq!(missing, Some("aPosition"));
    assert!(pointers.is_empty());
}
