//! The binary font table: a little-endian header, a glyph directory, and per
//! glyph a path of move / line / curve / close commands that compiles into
//! triangles for the glyph shader. Coordinates stay in raw font units here;
//! the caller multiplies them by the font's scale.

use vstd::prelude::*;

verus! {

/// A path command byte of a glyph's path.
#[derive(Copy, Clone, Debug, PartialEq, Eq, Structural)]
pub enum PathCommand {
    MoveTo,
    LineTo,
    CurveTo,
    Close,
}

/// The command a byte encodes: 0 move, 1 line, 2 curve, 3 close.
pub open spec fn decode_command(v: u8) -> Option<PathCommand> {
    if v == 0 {
        Some(PathCommand::MoveTo)
    } else if v == 1 {
        Some(PathCommand::LineTo)
    } else if v == 2 {
        Some(PathCommand::CurveTo)
    } else if v == 3 {
        Some(PathCommand::Close)
    } else {
        None
    }
}

impl TryFrom<u8> for PathCommand {
    type Error = ();

    fn try_from(v: u8) -> (r: Result<Self, Self::Error>) {
        if v == 0 {
            Ok(PathCommand::MoveTo)
        } else if v == 1 {
            Ok(PathCommand::LineTo)
        } else if v == 2 {
            Ok(PathCommand::CurveTo)
        } else if v == 3 {
            Ok(PathCommand::Close)
        } else {
            Err(())
        }
    }
}

impl vstd::std_specs::convert::TryFromSpecImpl<u8> for PathCommand {
    open spec fn obeys_try_from_spec() -> bool {
        true
    }

    open spec fn try_from_spec(v: u8) -> Result<Self, Self::Error> {
        match decode_command(v) {
            Some(c) => Ok(c),
            None => Err(()),
        }
    }
}

/// The unsigned 16-bit little-endian value stored at `o`.
pub open spec fn u16_at(data: Seq<u8>, o: int) -> int {
    data[o] + 256 * data[o + 1]
}

/// The signed 16-bit little-endian value stored at `o`.
pub open spec fn i16_at(data: Seq<u8>, o: int) -> i16 {
    u16_at(data, o) as i16
}

/// The signed 32-bit little-endian value stored at `o`.
pub open spec fn i32_at(data: Seq<u8>, o: int) -> i32 {
    (u16_at(data, o) + 65536 * u16_at(data, o + 2)) as i32
}

/// A cursor over font data that reads little-endian integers.
pub struct DataReader<'a> {
    pub data: &'a [u8],
    pub offset: usize,
}

impl<'a> DataReader<'a> {
    pub fn new(data: &'a [u8]) -> (r: Self)
        ensures
            r.data@ == data@,
            r.offset == 0,
    {
        Self { data, offset: 0 }
    }

    pub fn read_u8(&mut self) -> (r: u8)
        requires
            old(self).offset + 1 <= old(self).data@.len(),
        ensures
            r == old(self).data@[old(self).offset as int],
            final(self).offset == old(self).offset + 1,
            final(self).data@ == old(self).data@,
    {
        let result = self.data[self.offset];
        self.offset = self.offset + 1;
        result
    }

    pub fn read_u16(&mut self) -> (r: u16)
        requires
            old(self).offset + 2 <= old(self).data@.len(),
        ensures
            r == u16_at(old(self).data@, old(self).offset as int),
            final(self).offset == old(self).offset + 2,
            final(self).data@ == old(self).data@,
    {
        let lo = self.data[self.offset] as u16;
        let hi = self.data[self.offset + 1] as u16;
        self.offset = self.offset + 2;
        lo + hi * 256
    }

    pub fn read_i16(&mut self) -> (r: i16)
        requires
            old(self).offset + 2 <= old(self).data@.len(),
        ensures
            r == i16_at(old(self).data@, old(self).offset as int),
            final(self).offset == old(self).offset + 2,
            final(self).data@ == old(self).data@,
    {
        let v = self.read_u16();
        v as i16
    }

    pub fn read_i32(&mut self) -> (r: i32)
        requires
            old(self).offset + 4 <= old(self).data@.len(),
        ensures
            r == i32_at(old(self).data@, old(self).offset as int),
            final(self).offset == old(self).offset + 4,
            final(self).data@ == old(self).data@,
    {
        let lo = self.read_u16() as u32;
        let hi = self.read_u16() as u32;
        (lo + hi * 65536) as i32
    }

    pub fn seek_to(&mut self, offset: usize)
        ensures
            final(self).offset == offset,
            final(self).data@ == old(self).data@,
    {
        self.offset = offset;
    }
}

/// Why font data could not be read. `Truncated` is a read past the end of the
/// data; `InvalidCommand` is a path command byte that encodes no command.
#[derive(Copy, Clone, Debug, PartialEq, Eq, Structural)]
pub enum FontDataError {
    Truncated,
    InvalidCommand,
}

/// One entry of the glyph directory, in raw font units.
#[derive(Copy, Clone, Debug, PartialEq, Eq, Structural)]
pub struct GlyphEntry {
    /// The 16-bit value stored for the glyph; it keys the glyph's table.
    pub key: u16,
    /// The code point: the key without its italic bit.
    pub code_point: u16,
    /// Whether the italic bit (bit 15) of the key is set.
    pub italic: bool,
    pub advance_width: i16,
    pub byte_offset: usize,
    pub byte_length: usize,
}

/// The header and glyph directory of a font, in raw font units.
#[derive(Debug)]
pub struct FontTable {
    /// The font's units per em; one font unit is `1 / units_per_em`.
    pub units_per_em: i16,
    pub ascender: i16,
    pub descender: i16,
    pub glyphs: Vec<GlyphEntry>,
}

/// Number of directory entries the header announces (none when negative).
pub open spec fn glyph_count(data: Seq<u8>) -> int {
    let n = i16_at(data, 6) as int;
    if n < 0 { 0 } else { n }
}

/// Bytes of one directory entry: code point, advance, offset, length.
pub open spec fn entry_size() -> int {
    10
}

/// Whether the data holds the whole header and directory.
pub open spec fn table_fits(data: Seq<u8>) -> bool {
    &&& data.len() >= 8
    &&& data.len() >= 8 + entry_size() * glyph_count(data)
}

/// The directory entry that starts at byte `o`.
pub open spec fn entry_at(data: Seq<u8>, o: int) -> GlyphEntry {
    let key = u16_at(data, o) as u16;
    GlyphEntry {
        key,
        code_point: key & 0x7fff,
        italic: key & 0x8000 != 0,
        advance_width: i16_at(data, o + 2),
        byte_offset: i32_at(data, o + 4) as usize,
        byte_length: i16_at(data, o + 8) as usize,
    }
}

/// Reads the header and the glyph directory. The data is truncated exactly when
/// it is shorter than the header and the entries the header announces.
pub fn parse_font_table(data: &[u8]) -> (r: Result<FontTable, FontDataError>)
    ensures
        match r {
            Ok(t) => {
                &&& table_fits(data@)
                &&& t.units_per_em == i16_at(data@, 0)
                &&& t.ascender == i16_at(data@, 2)
                &&& t.descender == i16_at(data@, 4)
                &&& t.glyphs@.len() == glyph_count(data@)
                &&& forall|k: int|
                    0 <= k < t.glyphs@.len() ==> #[trigger] t.glyphs@[k] == entry_at(data@, 8 + 10 * k)
            },
            Err(e) => e == FontDataError::Truncated && !table_fits(data@),
        },
{
    if data.len() < 8 {
        return Err(FontDataError::Truncated);
    }
    let mut reader = DataReader::new(data);
    let units_per_em = reader.read_i16();
    let ascender = reader.read_i16();
    let descender = reader.read_i16();
    let num_glyphs = reader.read_i16();
    let count: usize = if num_glyphs < 0 { 0 } else { num_glyphs as usize };
    if (data.len() - 8) / 10 < count {
        return Err(FontDataError::Truncated);
    }
    let mut glyphs: Vec<GlyphEntry> = Vec::new();
    let mut i: usize = 0;
    while i < count
        invariant
            count == glyph_count(data@),
            table_fits(data@),
            i <= count,
            reader.data@ == data@,
            reader.offset == 8 + 10 * i,
            glyphs@.len() == i,
            forall|k: int| 0 <= k < i ==> #[trigger] glyphs@[k] == entry_at(data@, 8 + 10 * k),
        decreases count - i,
    {
        let key = reader.read_u16();
        let advance_width = reader.read_i16();
        let byte_offset = reader.read_i32() as usize;
        let byte_length = reader.read_i16() as usize;
        let entry = GlyphEntry {
            key,
            code_point: key & 0x7fff,
            italic: key & 0x8000 != 0,
            advance_width,
            byte_offset,
            byte_length,
        };
        glyphs.push(entry);
        i = i + 1;
    }
    Ok(FontTable { units_per_em, ascender, descender, glyphs })
}

/// A point of a glyph path, in raw font units.
#[derive(Copy, Clone, Debug, PartialEq, Eq, Structural)]
pub struct GlyphPoint {
    pub x: i16,
    pub y: i16,
}

/// A decoded command of a glyph path.
#[derive(Copy, Clone, Debug, PartialEq, Eq, Structural)]
pub enum GlyphPathCommand {
    MoveTo(GlyphPoint),
    LineTo(GlyphPoint),
    CurveTo(GlyphPoint, GlyphPoint),
    Close,
}

/// The point stored at `o`: x, then y.
pub open spec fn point_at(data: Seq<u8>, o: int) -> GlyphPoint {
    GlyphPoint { x: i16_at(data, o), y: i16_at(data, o + 2) }
}

/// `prefix` followed by what `rest` parsed, or the error that stopped `rest`.
pub open spec fn prepend(
    prefix: Seq<GlyphPathCommand>,
    rest: Result<Seq<GlyphPathCommand>, FontDataError>,
) -> Result<Seq<GlyphPathCommand>, FontDataError> {
    match rest {
        Ok(s) => Ok(prefix + s),
        Err(e) => Err(e),
    }
}

/// The commands stored from byte `offset` while the offset stays below `end`.
/// A command is read whole even where it reaches past `end`; a read past the
/// data is `Truncated`, and a byte that encodes no command is `InvalidCommand`.
pub open spec fn parse_path(data: Seq<u8>, offset: int, end: int) -> Result<
    Seq<GlyphPathCommand>,
    FontDataError,
>
    decreases data.len() - offset,
{
    if offset < 0 || offset >= end {
        Ok(Seq::empty())
    } else if offset >= data.len() {
        Err(FontDataError::Truncated)
    } else {
        match decode_command(data[offset]) {
            None => Err(FontDataError::InvalidCommand),
            Some(PathCommand::Close) => prepend(
                seq![GlyphPathCommand::Close],
                parse_path(data, offset + 1, end),
            ),
            Some(PathCommand::MoveTo) => if offset + 5 > data.len() {
                Err(FontDataError::Truncated)
            } else {
                prepend(
                    seq![GlyphPathCommand::MoveTo(point_at(data, offset + 1))],
                    parse_path(data, offset + 5, end),
                )
            },
            Some(PathCommand::LineTo) => if offset + 5 > data.len() {
                Err(FontDataError::Truncated)
            } else {
                prepend(
                    seq![GlyphPathCommand::LineTo(point_at(data, offset + 1))],
                    parse_path(data, offset + 5, end),
                )
            },
            Some(PathCommand::CurveTo) => if offset + 9 > data.len() {
                Err(FontDataError::Truncated)
            } else {
                prepend(
                    seq![
                        GlyphPathCommand::CurveTo(
                            point_at(data, offset + 1),
                            point_at(data, offset + 5),
                        ),
                    ],
                    parse_path(data, offset + 9, end),
                )
            },
        }
    }
}

proof fn lemma_prepend_assoc(
    a: Seq<GlyphPathCommand>,
    b: Seq<GlyphPathCommand>,
    r: Result<Seq<GlyphPathCommand>, FontDataError>,
)
    ensures
        prepend(a, prepend(b, r)) == prepend(a + b, r),
{
    match r {
        Ok(s) => {
            assert(a + (b + s) =~= (a + b) + s);
        },
        Err(e) => {},
    }
}

/// Reads the commands of a glyph's path: the bytes from `byte_offset` up to
/// `byte_offset + byte_length`.
pub fn parse_glyph_path(data: &[u8], byte_offset: usize, byte_length: usize) -> (r: Result<
    Vec<GlyphPathCommand>,
    FontDataError,
>)
    ensures
        match r {
            Ok(v) => parse_path(data@, byte_offset as int, byte_offset + byte_length) == Ok::<
                Seq<GlyphPathCommand>,
                FontDataError,
            >(v@),
            Err(e) => parse_path(data@, byte_offset as int, byte_offset + byte_length) == Err::<
                Seq<GlyphPathCommand>,
                FontDataError,
            >(e),
        },
{
    let ghost end: int = byte_offset + byte_length;
    let (end_exec, overflowed) = match byte_offset.checked_add(byte_length) {
        Some(e) => (e, false),
        None => (usize::MAX, true),
    };
    let mut reader = DataReader::new(data);
    reader.seek_to(byte_offset);
    let mut commands: Vec<GlyphPathCommand> = Vec::new();
    loop
        invariant
            reader.data@ == data@,
            end == byte_offset + byte_length,
            byte_offset <= reader.offset,
            overflowed ==> end > usize::MAX,
            !overflowed ==> end == end_exec,
            parse_path(data@, byte_offset as int, end) == prepend(
                commands@,
                parse_path(data@, reader.offset as int, end),
            ),
        decreases data.len() - reader.offset,
    {
        if !overflowed && reader.offset >= end_exec {
            assert(commands@ + Seq::<GlyphPathCommand>::empty() =~= commands@);
            assert(parse_path(data@, reader.offset as int, end) == Ok::<Seq<GlyphPathCommand>, FontDataError>(
                Seq::empty()));
            return Ok(commands);
        }
        let ghost before = reader.offset as int;
        assert(before < end);
        if reader.offset >= data.len() {
            assert(parse_path(data@, before, end) == Err::<Seq<GlyphPathCommand>, FontDataError>(
                FontDataError::Truncated));
            return Err(FontDataError::Truncated);
        }
        let byte = reader.read_u8();
        let command = match PathCommand::try_from(byte) {
            Ok(c) => c,
            Err(_) => {
                assert(parse_path(data@, before, end) == Err::<Seq<GlyphPathCommand>, FontDataError>(
                    FontDataError::InvalidCommand));
                return Err(FontDataError::InvalidCommand);
            },
        };
        let decoded = match command {
            PathCommand::Close => GlyphPathCommand::Close,
            PathCommand::MoveTo => {
                if data.len() - reader.offset < 4 {
                    assert(parse_path(data@, before, end) == Err::<Seq<GlyphPathCommand>, FontDataError>(
                        FontDataError::Truncated));
                    return Err(FontDataError::Truncated);
                }
                let x = reader.read_i16();
                let y = reader.read_i16();
                GlyphPathCommand::MoveTo(GlyphPoint { x, y })
            },
            PathCommand::LineTo => {
                if data.len() - reader.offset < 4 {
                    assert(parse_path(data@, before, end) == Err::<Seq<GlyphPathCommand>, FontDataError>(
                        FontDataError::Truncated));
                    return Err(FontDataError::Truncated);
                }
                let x = reader.read_i16();
                let y = reader.read_i16();
                GlyphPathCommand::LineTo(GlyphPoint { x, y })
            },
            PathCommand::CurveTo => {
                if data.len() - reader.offset < 8 {
                    assert(parse_path(data@, before, end) == Err::<Seq<GlyphPathCommand>, FontDataError>(
                        FontDataError::Truncated));
                    return Err(FontDataError::Truncated);
                }
                let cx = reader.read_i16();
                let cy = reader.read_i16();
                let x = reader.read_i16();
                let y = reader.read_i16();
                GlyphPathCommand::CurveTo(GlyphPoint { x: cx, y: cy }, GlyphPoint { x, y })
            },
        };
        assert(parse_path(data@, before, end) == prepend(
            seq![decoded],
            parse_path(data@, reader.offset as int, end),
        ));
        proof {
            lemma_prepend_assoc(commands@, seq![decoded], parse_path(data@, reader.offset as int, end));
        }
        let ghost old_commands = commands@;
        commands.push(decoded);
        assert(commands@ =~= old_commands + seq![decoded]);
    }
}

/// The role of a vertex emitted for the glyph shader, which the shader reads as
/// texture coordinates `(s, t)`: a vertex of a solid triangle is `(0, 1)`; the
/// three vertices of a curve triangle are `(0, 0)`, `(0.5, 0)` and `(1, 1)`.
#[derive(Copy, Clone, Debug, PartialEq, Eq, Structural)]
pub enum VertexRole {
    Solid,
    CurveStart,
    CurveControl,
    CurveEnd,
}

/// A vertex emitted for the glyph shader.
#[derive(Copy, Clone, Debug, PartialEq, Eq, Structural)]
pub struct GlyphVertex {
    pub point: GlyphPoint,
    pub role: VertexRole,
}

/// The state of a glyph compiler.
pub struct CompilerView {
    pub vertices: Seq<GlyphVertex>,
    pub first: GlyphPoint,
    pub current: GlyphPoint,
    pub contour_count: int,
}

/// The solid triangle `(a, b, c)`.
pub open spec fn solid_triangle(a: GlyphPoint, b: GlyphPoint, c: GlyphPoint) -> Seq<GlyphVertex> {
    seq![
        GlyphVertex { point: a, role: VertexRole::Solid },
        GlyphVertex { point: b, role: VertexRole::Solid },
        GlyphVertex { point: c, role: VertexRole::Solid },
    ]
}

/// The curve triangle from `a` through control point `b` to `c`.
pub open spec fn curve_triangle(a: GlyphPoint, b: GlyphPoint, c: GlyphPoint) -> Seq<GlyphVertex> {
    seq![
        GlyphVertex { point: a, role: VertexRole::CurveStart },
        GlyphVertex { point: b, role: VertexRole::CurveControl },
        GlyphVertex { point: c, role: VertexRole::CurveEnd },
    ]
}

impl CompilerView {
    /// A compiler that has seen nothing: it starts at the origin.
    pub open spec fn initial() -> CompilerView {
        CompilerView {
            vertices: Seq::empty(),
            first: GlyphPoint { x: 0, y: 0 },
            current: GlyphPoint { x: 0, y: 0 },
            contour_count: 0,
        }
    }

    /// Starting a contour at `p`.
    pub open spec fn after_move_to(self, p: GlyphPoint) -> CompilerView {
        CompilerView { first: p, current: p, contour_count: 0, ..self }
    }

    /// The fan triangle that a segment to `p` adds: from the contour's first
    /// point, once the contour has two segments.
    pub open spec fn fan(self, p: GlyphPoint) -> Seq<GlyphVertex> {
        if self.contour_count + 1 >= 2 {
            solid_triangle(self.first, self.current, p)
        } else {
            Seq::empty()
        }
    }

    /// A straight segment to `p`.
    pub open spec fn after_line_to(self, p: GlyphPoint) -> CompilerView {
        CompilerView {
            vertices: self.vertices + self.fan(p),
            current: p,
            contour_count: self.contour_count + 1,
            ..self
        }
    }

    /// A quadratic segment to `p` with control point `c`.
    pub open spec fn after_curve_to(self, c: GlyphPoint, p: GlyphPoint) -> CompilerView {
        CompilerView {
            vertices: self.vertices + self.fan(p) + curve_triangle(self.current, c, p),
            current: p,
            contour_count: self.contour_count + 1,
            ..self
        }
    }

    /// Closing the contour: back to its first point.
    pub open spec fn after_close(self) -> CompilerView {
        CompilerView { current: self.first, contour_count: 0, ..self }
    }

    /// The state after one path command.
    pub open spec fn after(self, command: GlyphPathCommand) -> CompilerView {
        match command {
            GlyphPathCommand::MoveTo(p) => self.after_move_to(p),
            GlyphPathCommand::LineTo(p) => self.after_line_to(p),
            GlyphPathCommand::CurveTo(c, p) => self.after_curve_to(c, p),
            GlyphPathCommand::Close => self.after_close(),
        }
    }
}

/// The state after a whole sequence of path commands.
pub open spec fn compiled(commands: Seq<GlyphPathCommand>) -> CompilerView {
    run(CompilerView::initial(), commands)
}

/// The state after a sequence of path commands, from a given state.
pub open spec fn run(start: CompilerView, commands: Seq<GlyphPathCommand>) -> CompilerView
    decreases commands.len(),
{
    if commands.len() == 0 {
        start
    } else {
        run(start, commands.drop_last()).after(commands.last())
    }
}

/// Whether every command draws a segment (a line or a curve).
pub open spec fn all_segments(commands: Seq<GlyphPathCommand>) -> bool {
    forall|i: int|
        0 <= i < commands.len() ==> (#[trigger] commands[i] is LineTo || commands[i] is CurveTo)
}

/// The number of curve commands.
pub open spec fn curve_count(commands: Seq<GlyphPathCommand>) -> int
    decreases commands.len(),
{
    if commands.len() == 0 {
        0
    } else {
        curve_count(commands.drop_last()) + if commands.last() is CurveTo {
            1int
        } else {
            0int
        }
    }
}

/// A contour of `k` segments is a fan of `k - 1` solid triangles from its first
/// point, plus one curve triangle per curve: after a move, `k >= 1` segments
/// add `3 * (k - 1) + 3 * curves` vertices, and the contour counts `k` segments.
pub proof fn lemma_contour_triangle_count(start: CompilerView, p: GlyphPoint, segments: Seq<GlyphPathCommand>)
    requires
        all_segments(segments),
        segments.len() >= 1,
    ensures
        run(start.after_move_to(p), segments).vertices.len() == start.vertices.len() + 3 * (
        segments.len() - 1) + 3 * curve_count(segments),
        run(start.after_move_to(p), segments).contour_count == segments.len(),
        run(start.after_move_to(p), segments).first == p,
    decreases segments.len(),
{
    let init = segments.drop_last();
    assert(all_segments(init)) by {
        assert forall|i: int| 0 <= i < init.len() implies (#[trigger] init[i] is LineTo
            || init[i] is CurveTo) by {
            assert(init[i] == segments[i]);
        }
    }
    assert(segments.last() == segments[segments.len() - 1]);
    if segments.len() == 1 {
        assert(init.len() == 0);
    } else {
        lemma_contour_triangle_count(start, p, init);
    }
}

/// The point a command leaves the path at, for a command that names one.
pub open spec fn command_end(command: GlyphPathCommand) -> Option<GlyphPoint> {
    match command {
        GlyphPathCommand::MoveTo(p) => Some(p),
        GlyphPathCommand::LineTo(p) => Some(p),
        GlyphPathCommand::CurveTo(_, p) => Some(p),
        GlyphPathCommand::Close => None,
    }
}

/// From a state with a segment count of a compiler, every run keeps it.
proof fn lemma_run_count_nonneg(start: CompilerView, commands: Seq<GlyphPathCommand>)
    requires
        start.contour_count >= 0,
    ensures
        run(start, commands).contour_count >= 0,
    decreases commands.len(),
{
    if commands.len() > 0 {
        lemma_run_count_nonneg(start, commands.drop_last());
    }
}

/// A command that names a point leaves the path at that point, and a close
/// takes it back to the contour's first point; a move also starts a contour
/// there with no segments and emits nothing, and no command but a move changes
/// the contour's first point.
pub proof fn lemma_command_moves_current(
    start: CompilerView,
    commands: Seq<GlyphPathCommand>,
    command: GlyphPathCommand,
)
    ensures
        ({
            let before = run(start, commands);
            let after = run(start, commands.push(command));
            &&& command_end(command) is Some ==> after.current == command_end(command)->Some_0
            &&& command is Close ==> after.current == before.first && after.vertices
                == before.vertices
            &&& command is MoveTo ==> {
                &&& after.first == command->MoveTo_0
                &&& after.contour_count == 0
                &&& after.vertices == before.vertices
            }
            &&& !(command is MoveTo) ==> after.first == before.first
        }),
{
    assert(commands.push(command).drop_last() =~= commands);
}

/// Every segment starts where the command before it left the path: a segment
/// to `p` after a command that left the path at `q` adds the solid triangle
/// from the contour's first point through `q` to `p` (none for the first
/// segment of a contour, right after its move) and, for a curve with control
/// point `c`, then the curve triangle from `q` through `c` to `p`; the path is
/// then at `p`.
pub proof fn lemma_segment_starts_where_previous_ended(
    start: CompilerView,
    commands: Seq<GlyphPathCommand>,
    previous: GlyphPathCommand,
    segment: GlyphPathCommand,
)
    requires
        start.contour_count >= 0,
        command_end(previous) is Some,
        segment is LineTo || segment is CurveTo,
    ensures
        ({
            let q = command_end(previous)->Some_0;
            let p = command_end(segment)->Some_0;
            let before = run(start, commands.push(previous));
            let after = run(start, commands.push(previous).push(segment));
            let fan = if previous is MoveTo {
                Seq::<GlyphVertex>::empty()
            } else {
                solid_triangle(before.first, q, p)
            };
            let curve = if segment is CurveTo {
                curve_triangle(q, segment->CurveTo_0, p)
            } else {
                Seq::<GlyphVertex>::empty()
            };
            &&& after.vertices == before.vertices + fan + curve
            &&& after.current == p
            &&& after.first == before.first
        }),
{
    lemma_run_count_nonneg(start, commands);
    lemma_command_moves_current(start, commands, previous);
    lemma_command_moves_current(start, commands.push(previous), segment);
    let before = run(start, commands.push(previous));
    let after = run(start, commands.push(previous).push(segment));
    assert(commands.push(previous).drop_last() =~= commands);
    assert(commands.push(previous).push(segment).drop_last() =~= commands.push(previous));
    if segment is LineTo {
        assert(after.vertices =~= before.vertices + before.fan(segment->LineTo_0) + Seq::<
            GlyphVertex,
        >::empty());
    }
}

/// Turns a glyph's path into triangles: every contour becomes a fan of solid
/// triangles from its first point, and every curve adds a curve triangle.
pub struct GlyphCompiler {
    pub vertices: Vec<GlyphVertex>,
    pub first: GlyphPoint,
    pub current: GlyphPoint,
    pub contour_count: u32,
}

impl GlyphCompiler {
    pub open spec fn view(&self) -> CompilerView {
        CompilerView {
            vertices: self.vertices@,
            first: self.first,
            current: self.current,
            contour_count: self.contour_count as int,
        }
    }

    /// The emitted vertices form whole triangles.
    pub open spec fn wf(&self) -> bool {
        self.vertices@.len() % 3 == 0
    }

    pub fn new() -> (r: Self)
        ensures
            r.view() == CompilerView::initial(),
            r.wf(),
    {
        Self {
            vertices: Vec::new(),
            first: GlyphPoint { x: 0, y: 0 },
            current: GlyphPoint { x: 0, y: 0 },
            contour_count: 0,
        }
    }

    pub fn move_to(&mut self, p: GlyphPoint)
        requires
            old(self).wf(),
        ensures
            final(self).view() == old(self).view().after_move_to(p),
            final(self).wf(),
    {
        self.first = p;
        self.current = p;
        self.contour_count = 0;
    }

    pub fn line_to(&mut self, p: GlyphPoint)
        requires
            old(self).wf(),
            old(self).contour_count < u32::MAX,
        ensures
            final(self).view() == old(self).view().after_line_to(p),
            final(self).wf(),
    {
        self.contour_count = self.contour_count + 1;
        if self.contour_count >= 2 {
            self.append_triangle(self.first, self.current, p);
        }
        self.current = p;
        proof {
            assert(self.vertices@ =~= old(self).vertices@ + old(self).view().fan(p));
        }
    }

    pub fn curve_to(&mut self, c: GlyphPoint, p: GlyphPoint)
        requires
            old(self).wf(),
            old(self).contour_count < u32::MAX,
        ensures
            final(self).view() == old(self).view().after_curve_to(c, p),
            final(self).wf(),
    {
        self.contour_count = self.contour_count + 1;
        if self.contour_count >= 2 {
            self.append_triangle(self.first, self.current, p);
        }
        assert(self.vertices@ =~= old(self).vertices@ + old(self).view().fan(p));
        self.append_curve(self.current, c, p);
        self.current = p;
        proof {
            assert(self.vertices@ =~= old(self).vertices@ + old(self).view().fan(p) + curve_triangle(
                old(self).current,
                c,
                p,
            ));
        }
    }

    pub fn close(&mut self)
        requires
            old(self).wf(),
        ensures
            final(self).view() == old(self).view().after_close(),
            final(self).wf(),
    {
        self.current = self.first;
        self.contour_count = 0;
    }

    /// The emitted vertices; the caller scales them and takes their bounding box.
    pub fn end(self) -> (r: Vec<GlyphVertex>)
        ensures
            r@ == self.view().vertices,
    {
        self.vertices
    }

    fn append_triangle(&mut self, a: GlyphPoint, b: GlyphPoint, c: GlyphPoint)
        ensures
            final(self).vertices@ == old(self).vertices@ + solid_triangle(a, b, c),
            final(self).first == old(self).first,
            final(self).current == old(self).current,
            final(self).contour_count == old(self).contour_count,
    {
        self.append_vertex(a, VertexRole::Solid);
        self.append_vertex(b, VertexRole::Solid);
        self.append_vertex(c, VertexRole::Solid);
        assert(self.vertices@ =~= old(self).vertices@ + solid_triangle(a, b, c));
    }

    fn append_curve(&mut self, a: GlyphPoint, b: GlyphPoint, c: GlyphPoint)
        ensures
            final(self).vertices@ == old(self).vertices@ + curve_triangle(a, b, c),
            final(self).first == old(self).first,
            final(self).current == old(self).current,
            final(self).contour_count == old(self).contour_count,
    {
        self.append_vertex(a, VertexRole::CurveStart);
        self.append_vertex(b, VertexRole::CurveControl);
        self.append_vertex(c, VertexRole::CurveEnd);
        assert(self.vertices@ =~= old(self).vertices@ + curve_triangle(a, b, c));
    }

    fn append_vertex(&mut self, p: GlyphPoint, role: VertexRole)
        ensures
            final(self).vertices@ == old(self).vertices@.push(GlyphVertex { point: p, role }),
            final(self).first == old(self).first,
            final(self).current == old(self).current,
            final(self).contour_count == old(self).contour_count,
    {
        self.vertices.push(GlyphVertex { point: p, role });
    }
}

/// Compiles a glyph's path commands into vertices, one command after the other.
pub fn compile_glyph_path(commands: &[GlyphPathCommand]) -> (r: Vec<GlyphVertex>)
    requires
        commands@.len() < u32::MAX,
    ensures
        r@ == compiled(commands@).vertices,
        r@.len() % 3 == 0,
{
    let mut compiler = GlyphCompiler::new();
    let mut i: usize = 0;
    while i < commands.len()
        invariant
            i <= commands@.len() < u32::MAX,
            compiler.wf(),
            compiler.view() == compiled(commands@.take(i as int)),
            compiler.contour_count <= i,
        decreases commands@.len() - i,
    {
        proof {
            assert(commands@.take(i + 1).drop_last() =~= commands@.take(i as int));
        }
        match commands[i] {
            GlyphPathCommand::MoveTo(p) => compiler.move_to(p),
            GlyphPathCommand::LineTo(p) => compiler.line_to(p),
            GlyphPathCommand::CurveTo(c, p) => compiler.curve_to(c, p),
            GlyphPathCommand::Close => compiler.close(),
        }
        i = i + 1;
    }
    assert(commands@.take(commands@.len() as int) =~= commands@);
    compiler.end()
}

/// Reads a glyph's path from the font data and compiles it into vertices. The
/// data fits in a 32-bit address space, so that no contour can have as many
/// segments as a `u32` counts.
pub fn glyph_vertices(data: &[u8], byte_offset: usize, byte_length: usize) -> (r: Result<
    Vec<GlyphVertex>,
    FontDataError,
>)
    requires
        data@.len() < u32::MAX,
    ensures
        match parse_path(data@, byte_offset as int, byte_offset + byte_length) {
            Ok(commands) => r == Ok::<Vec<GlyphVertex>, FontDataError>(r->Ok_0) && r->Ok_0@ == compiled(commands).vertices,
            Err(e) => r == Err::<Vec<GlyphVertex>, FontDataError>(e),
        },
{
    let commands = parse_glyph_path(data, byte_offset, byte_length)?;
    proof {
        lemma_parse_path_len(data@, byte_offset as int, byte_offset + byte_length);
    }
    Ok(compile_glyph_path(commands.as_slice()))
}

/// Every parsed command takes at least one byte of the data.
proof fn lemma_parse_path_len(data: Seq<u8>, offset: int, end: int)
    ensures
        parse_path(data, offset, end) matches Ok(s) ==> s.len() <= data.len() - offset || s.len() == 0,
    decreases data.len() - offset,
{
    if 0 <= offset < end && offset < data.len() {
        match decode_command(data[offset]) {
            None => {},
            Some(PathCommand::Close) => lemma_parse_path_len(data, offset + 1, end),
            Some(PathCommand::CurveTo) => if offset + 9 <= data.len() {
                lemma_parse_path_len(data, offset + 9, end)
            },
            Some(_) => if offset + 5 <= data.len() {
                lemma_parse_path_len(data, offset + 5, end)
            },
        }
    }
}

} // verus!
