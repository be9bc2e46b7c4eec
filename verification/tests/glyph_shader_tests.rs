use chart_canvas::glyph_shader::{next_glyph_index, GlyphShaderError, GlyphShaderTables, GlyphVertexData, ShaderGlyphHeader, DATA_ROW_SIZE};

#[test]
fn next_index_counts_triangles() {
    assert_eq!(next_glyph_index(0), Ok(0));
    assert_eq!(next_glyph_index(10), Ok(3));
    assert_eq!(next_glyph_index(65535 * 3 + 2), Ok(65535));
    assert_eq!(next_glyph_index(65536 * 3), Err(GlyphShaderError::TooManyVertices));
}

#[test]
fn glyph_headers_and_max() {
    let mut t = GlyphShaderTables::new();
    assert_eq!(t.known_glyph(1), None);
    let h = t.add_glyph(1, 0, 30, 12);
    assert_eq!(h, ShaderGlyphHeader { index: 0, num_fill_triangles: 10, num_stroke_triangles: 4, padding: 0 });
    assert_eq!(t.max_glyph_num_triangles, 14);
    t.add_glyph(2, 14, 6, 0);
    assert_eq!(t.max_glyph_num_triangles, 14);
    assert_eq!(t.known_glyph(1), Some(h));
    t.clear_glyphs();
    assert_eq!(t.known_glyph(1), None);
    assert_eq!(t.max_glyph_num_triangles, 0);
}

#[test]
fn vertex_data_gathers_and_pads() {
    let mut d: GlyphVertexData<(i32, i32)> = GlyphVertexData::new();
    let verts = [(0, 0), (1, 0), (1, 1), (0, 1)];
    let r = d.glyph_data(&verts, &[10, 11, 12, 10, 12, 13], 10, (0, 0));
    assert_eq!(r, (0, 6));
    assert_eq!(d.num_vertices, 6);
    assert_eq!(d.vertices.len(), DATA_ROW_SIZE);
    assert_eq!(&d.vertices[..6], &[(0, 0), (1, 0), (1, 1), (0, 0), (1, 1), (0, 1)]);
    let r2 = d.glyph_data(&verts, &[1, 2, 3], 0, (0, 0));
    assert_eq!(r2, (6, 3));
    assert_eq!(d.max_glyph_num_vertices, 6);
    assert_eq!(&d.vertices[6..9], &[(1, 0), (1, 1), (0, 1)]);
    d.clear_glyphs();
    assert_eq!(d.num_vertices, 0);
    assert!(d.vertices.is_empty());
}

#[test]
fn vertex_data_grows_by_whole_rows() {
    let mut d: GlyphVertexData<u8> = GlyphVertexData::new();
    let verts = [7u8];
    let indices = vec![0u16; DATA_ROW_SIZE];
    d.glyph_data(&verts, &indices, 0, 0);
    assert_eq!(d.vertices.len(), 2 * DATA_ROW_SIZE);
    assert_eq!(d.num_vertices, DATA_ROW_SIZE);
}

#[test]
fn vertex_texture_grows_with_storage() {
    let mut d: GlyphVertexData<u8> = GlyphVertexData::new();
    assert_eq!(d.rows_to_allocate(), None);
    d.glyph_data(&[1u8], &[0, 0, 0], 0, 0);
    assert_eq!(d.rows_to_allocate(), Some(1));
    assert_eq!(d.texture_rows, 1);
    assert_eq!(d.rows_to_allocate(), None);
    d.clear_glyphs();
    assert_eq!(d.texture_rows, 1);
}
