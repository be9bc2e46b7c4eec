use chart_canvas::shader::{attrib_location, AttributeTable, ShaderError};

#[test]
fn unknown_attribute_location() {
    match attrib_location(-1, "aPosition") {
        Err(ShaderError::UnknownAttribute(name)) => assert_eq!(name, "aPosition"),
        other => panic!("unexpected {:?}", other),
    }
    assert!(matches!(attrib_location(2, "aPosition"), Ok(2)));
}

#[test]
fn table_starts_unused() {
    let t = AttributeTable::new(3);
    assert_eq!(t.attributes.len(), 3);
    assert_eq!(t.attributes[1].size, -1);
    assert_eq!(t.attributes[1].buffer_size, usize::MAX);
    assert!(t.check_draw(17).is_ok());
}

#[test]
fn attribute_data_and_draw_check() {
    let mut t = AttributeTable::new(2);
    t.add_attribute(1, "aPosition", 2, 0x1406);
    assert_eq!(t.attributes[1].name, "aPosition");
    assert_eq!(t.attributes[1].buffer_size, 0);
    assert!(t.set_attribute_data_len(1, 12).is_ok());
    assert_eq!(t.attributes[1].buffer_size, 6);
    assert!(t.check_draw(6).is_ok());
    match t.check_draw(5) {
        Err(ShaderError::WrongLength { name, expected, actual }) => {
            assert_eq!(name, "aPosition");
            assert_eq!(expected, 5);
            assert_eq!(actual, 6);
        }
        other => panic!("unexpected {:?}", other),
    }
}

#[test]
fn attribute_data_not_a_multiple() {
    let mut t = AttributeTable::new(1);
    t.add_attribute(0, "aColor", 4, 0x1406);
    match t.set_attribute_data_len(0, 10) {
        Err(ShaderError::NotAMultiple { length, name, size }) => {
            assert_eq!(length, 10);
            assert_eq!(name, "aColor");
            assert_eq!(size, 4);
        }
        other => panic!("unexpected {:?}", other),
    }
    assert_eq!(t.attributes[0].buffer_size, 0);
}

#[test]
fn unused_slot_reads_its_size_as_unsigned() {
    let mut t = AttributeTable::new(1);
    match t.set_attribute_data_len(0, 10) {
        Err(ShaderError::NotAMultiple { length, size, .. }) => {
            assert_eq!(length, 10);
            assert_eq!(size, usize::MAX);
        }
        other => panic!("unexpected {:?}", other),
    }
    assert!(t.set_attribute_data_len(0, 0).is_ok());
    assert_eq!(t.attributes[0].buffer_size, 0);
}
