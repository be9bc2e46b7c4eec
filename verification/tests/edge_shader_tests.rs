use chart_canvas::edge_shader::{
    encode_dash_row, glyph_boundary_index, ArrowIndices, DashPatterns, EdgeShaderTables, GlyphIndexTable,
    DASH_PATTERN_TEXTURE_WIDTH,
};

#[test]
fn empty_pattern_is_known_from_the_start() {
    let mut d = DashPatterns::new();
    assert_eq!(d.dash_data(vec![]), (0, 0));
    assert!(d.data.is_empty());
}

#[test]
fn even_pattern_row() {
    let row = encode_dash_row(&vec![3, 2]);
    assert_eq!(row.len(), DASH_PATTERN_TEXTURE_WIDTH);
    assert_eq!(&row[..6], &[255, 255, 255, 0, 0, 255]);
    assert!(row[6..].iter().all(|&b| b == 0));
}

#[test]
fn odd_pattern_is_doubled_with_negation() {
    let row = encode_dash_row(&vec![2]);
    assert_eq!(&row[..5], &[255, 255, 0, 0, 255]);
    assert!(row[5..].iter().all(|&b| b == 0));
    let row3 = encode_dash_row(&vec![1, 2, 1]);
    assert_eq!(&row3[..9], &[255, 0, 0, 255, 0, 255, 255, 0, 255]);
}

#[test]
fn long_pattern_is_cut_to_one_row() {
    let row = encode_dash_row(&vec![255, 255, 255]);
    assert_eq!(row.len(), 512);
    assert!(row[..255].iter().all(|&b| b == 255));
    assert!(row[255..510].iter().all(|&b| b == 0));
    assert_eq!(&row[510..], &[255, 255]);
}

#[test]
fn patterns_get_rows_in_order_and_keep_them() {
    let mut d = DashPatterns::new();
    assert_eq!(d.dash_data(vec![3, 2]), (0, 5));
    assert_eq!(d.data.len(), 512);
    assert_eq!(d.dash_data(vec![4]), (1, 4));
    assert_eq!(d.data.len(), 1024);
    assert_eq!(&d.data[512..517], &[255, 255, 255, 255, 0]);
    assert_eq!(d.dash_data(vec![3, 2]), (0, 5));
    assert_eq!(d.data.len(), 1024);
}

#[test]
fn texture_grows_only_when_rows_are_added() {
    let mut d = DashPatterns::new();
    assert_eq!(d.rows_to_allocate(), None);
    d.dash_data(vec![1, 1]);
    assert_eq!(d.rows_to_allocate(), Some(1));
    assert_eq!(d.texture_num_rows, 1);
    assert_eq!(d.rows_to_allocate(), None);
    d.dash_data(vec![2, 1]);
    d.dash_data(vec![3, 1]);
    assert_eq!(d.rows_to_allocate(), Some(3));
}

#[test]
fn glyph_indices_in_order_of_first_sight() {
    let mut t = GlyphIndexTable::new();
    assert_eq!(t.glyph_index(77), (0, true));
    assert_eq!(t.glyph_index(12), (1, true));
    assert_eq!(t.glyph_index(77), (0, false));
    assert_eq!(t.glyph_index(5), (2, true));
    t.clear();
    assert_eq!(t.glyph_index(12), (0, true));
}

#[test]
fn arrow_tips_and_clear() {
    let mut t = EdgeShaderTables::new();
    assert_eq!(t.known_arrow_tip(9), None);
    let a = t.add_arrow_tip(9, 0, 30);
    assert_eq!(a, ArrowIndices { num_vertices: 30, header_index: 0, vertices_index: 0 });
    let b = t.add_arrow_tip(4, 30, 12);
    assert_eq!(b, ArrowIndices { num_vertices: 12, header_index: 1, vertices_index: 30 });
    assert_eq!(t.max_arrow_tip_num_vertices, 30);
    assert_eq!(t.known_arrow_tip(9), Some(a));
    assert_eq!(t.glyphs.glyph_index(1), (0, true));
    t.clear();
    assert_eq!(t.max_arrow_tip_num_vertices, 0);
    assert_eq!(t.known_arrow_tip(9), None);
    assert_eq!(t.glyphs.glyph_index(2), (0, true));
}

#[test]
fn arrow_indices_default_to_zero() {
    assert_eq!(ArrowIndices::default(), ArrowIndices { num_vertices: 0, header_index: 0, vertices_index: 0 });
}

#[test]
fn boundary_index_is_scaled_glyph_index() {
    assert_eq!(glyph_boundary_index(3, 64), 192);
    assert_eq!(glyph_boundary_index(0, 64), 0);
}
