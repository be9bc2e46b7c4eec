use chart_canvas::font::{
    compile_glyph_path, glyph_vertices, parse_font_table, parse_glyph_path, DataReader, FontDataError,
    GlyphCompiler, GlyphPathCommand, GlyphPoint, GlyphVertex, PathCommand, VertexRole,
};
use std::convert::TryFrom;

fn le16(v: i16) -> [u8; 2] {
    v.to_le_bytes()
}

fn pt(x: i16, y: i16) -> GlyphPoint {
    GlyphPoint { x, y }
}

fn header(units: i16, asc: i16, desc: i16, num: i16) -> Vec<u8> {
    let mut d = Vec::new();
    d.extend_from_slice(&le16(units));
    d.extend_from_slice(&le16(asc));
    d.extend_from_slice(&le16(desc));
    d.extend_from_slice(&le16(num));
    d
}

fn entry(key: u16, advance: i16, offset: i32, length: i16) -> Vec<u8> {
    let mut d = Vec::new();
    d.extend_from_slice(&key.to_le_bytes());
    d.extend_from_slice(&le16(advance));
    d.extend_from_slice(&offset.to_le_bytes());
    d.extend_from_slice(&le16(length));
    d
}

#[test]
fn path_command_bytes() {
    assert_eq!(PathCommand::try_from(0u8), Ok(PathCommand::MoveTo));
    assert_eq!(PathCommand::try_from(1u8), Ok(PathCommand::LineTo));
    assert_eq!(PathCommand::try_from(2u8), Ok(PathCommand::CurveTo));
    assert_eq!(PathCommand::try_from(3u8), Ok(PathCommand::Close));
    assert_eq!(PathCommand::try_from(4u8), Err(()));
}

#[test]
fn data_reader_reads_little_endian() {
    let data = [0x34u8, 0x12, 0xfe, 0xff, 0x78, 0x56, 0x34, 0x12, 0x01];
    let mut r = DataReader::new(&data);
    assert_eq!(r.read_u16(), 0x1234);
    assert_eq!(r.offset, 2);
    assert_eq!(r.read_i16(), -2);
    assert_eq!(r.read_i32(), 0x12345678);
    assert_eq!(r.read_u8(), 1);
    assert_eq!(r.offset, 9);
    r.seek_to(2);
    assert_eq!(r.read_u8(), 0xfe);
}

#[test]
fn font_table_with_two_glyphs() {
    let mut d = header(1000, 800, -200, 2);
    d.extend(entry(65, 600, 28, 5));
    d.extend(entry(0x8000 | 66, 650, 33, 9));
    let t = parse_font_table(&d).unwrap();
    assert_eq!(t.units_per_em, 1000);
    assert_eq!(t.ascender, 800);
    assert_eq!(t.descender, -200);
    assert_eq!(t.glyphs.len(), 2);
    let a = t.glyphs[0];
    assert_eq!((a.key, a.code_point, a.italic, a.advance_width, a.byte_offset, a.byte_length), (65, 65, false, 600, 28, 5));
    let b = t.glyphs[1];
    assert_eq!((b.key, b.code_point, b.italic, b.advance_width, b.byte_offset, b.byte_length), (0x8042, 66, true, 650, 33, 9));
}

#[test]
fn font_table_negative_offsets_wrap_as_usize() {
    let mut d = header(1000, 800, -200, 1);
    d.extend(entry(65, 600, -1, -1));
    let t = parse_font_table(&d).unwrap();
    assert_eq!(t.glyphs[0].byte_offset, usize::MAX);
    assert_eq!(t.glyphs[0].byte_length, usize::MAX);
}

#[test]
fn font_table_negative_count_has_no_glyphs() {
    let d = header(1000, 800, -200, -3);
    let t = parse_font_table(&d).unwrap();
    assert!(t.glyphs.is_empty());
}

#[test]
fn font_table_truncated() {
    assert_eq!(parse_font_table(&[1, 2, 3]).unwrap_err(), FontDataError::Truncated);
    let mut d = header(1000, 800, -200, 2);
    d.extend(entry(65, 600, 28, 5));
    assert_eq!(parse_font_table(&d).unwrap_err(), FontDataError::Truncated);
}

fn path_bytes() -> Vec<u8> {
    let mut d = vec![0u8];
    d.extend_from_slice(&le16(1));
    d.extend_from_slice(&le16(2));
    d.push(1);
    d.extend_from_slice(&le16(10));
    d.extend_from_slice(&le16(2));
    d.push(2);
    d.extend_from_slice(&le16(12));
    d.extend_from_slice(&le16(8));
    d.extend_from_slice(&le16(10));
    d.extend_from_slice(&le16(10));
    d.push(3);
    d
}

#[test]
fn glyph_path_commands() {
    let d = path_bytes();
    let cmds = parse_glyph_path(&d, 0, d.len()).unwrap();
    assert_eq!(
        cmds,
        vec![
            GlyphPathCommand::MoveTo(pt(1, 2)),
            GlyphPathCommand::LineTo(pt(10, 2)),
            GlyphPathCommand::CurveTo(pt(12, 8), pt(10, 10)),
            GlyphPathCommand::Close,
        ]
    );
}

#[test]
fn glyph_path_reads_whole_command_past_end() {
    let d = path_bytes();
    let cmds = parse_glyph_path(&d, 0, 1).unwrap();
    assert_eq!(cmds, vec![GlyphPathCommand::MoveTo(pt(1, 2))]);
}

#[test]
fn glyph_path_at_offset_and_empty() {
    let d = path_bytes();
    let cmds = parse_glyph_path(&d, 5, 5).unwrap();
    assert_eq!(cmds, vec![GlyphPathCommand::LineTo(pt(10, 2))]);
    assert!(parse_glyph_path(&d, 3, 0).unwrap().is_empty());
}

#[test]
fn glyph_path_invalid_command() {
    let d = vec![3u8, 9, 0, 0];
    assert_eq!(parse_glyph_path(&d, 0, 4).unwrap_err(), FontDataError::InvalidCommand);
}

#[test]
fn glyph_path_truncated() {
    let d = vec![1u8, 5, 0];
    assert_eq!(parse_glyph_path(&d, 0, 3).unwrap_err(), FontDataError::Truncated);
    assert_eq!(parse_glyph_path(&d, 0, 100).unwrap_err(), FontDataError::Truncated);
    assert_eq!(parse_glyph_path(&d, 2, usize::MAX).unwrap_err(), FontDataError::Truncated);
}

fn solid(p: GlyphPoint) -> GlyphVertex {
    GlyphVertex { point: p, role: VertexRole::Solid }
}

#[test]
fn compiler_fans_contour_from_first_point() {
    let mut c = GlyphCompiler::new();
    c.move_to(pt(0, 0));
    c.line_to(pt(4, 0));
    assert!(c.vertices.is_empty());
    c.line_to(pt(4, 4));
    c.line_to(pt(0, 4));
    c.close();
    assert_eq!(c.current, pt(0, 0));
    assert_eq!(c.contour_count, 0);
    let v = c.end();
    assert_eq!(
        v,
        vec![
            solid(pt(0, 0)), solid(pt(4, 0)), solid(pt(4, 4)),
            solid(pt(0, 0)), solid(pt(4, 4)), solid(pt(0, 4)),
        ]
    );
}

#[test]
fn compiler_curve_adds_curve_triangle() {
    let cmds = vec![
        GlyphPathCommand::MoveTo(pt(1, 2)),
        GlyphPathCommand::LineTo(pt(10, 2)),
        GlyphPathCommand::CurveTo(pt(12, 8), pt(10, 10)),
        GlyphPathCommand::Close,
    ];
    let v = compile_glyph_path(&cmds);
    assert_eq!(
        v,
        vec![
            solid(pt(1, 2)), solid(pt(10, 2)), solid(pt(10, 10)),
            GlyphVertex { point: pt(10, 2), role: VertexRole::CurveStart },
            GlyphVertex { point: pt(12, 8), role: VertexRole::CurveControl },
            GlyphVertex { point: pt(10, 10), role: VertexRole::CurveEnd },
        ]
    );
}

#[test]
fn compiler_line_before_move_starts_at_origin() {
    let cmds = vec![GlyphPathCommand::LineTo(pt(3, 0)), GlyphPathCommand::LineTo(pt(3, 3))];
    let v = compile_glyph_path(&cmds);
    assert_eq!(v, vec![solid(pt(0, 0)), solid(pt(3, 0)), solid(pt(3, 3))]);
}

#[test]
fn glyph_vertices_end_to_end() {
    let d = path_bytes();
    let v = glyph_vertices(&d, 0, d.len()).unwrap();
    assert_eq!(v.len(), 6);
    assert_eq!(v[0], solid(pt(1, 2)));
    assert_eq!(glyph_vertices(&[7u8], 0, 1).unwrap_err(), FontDataError::InvalidCommand);
}
