//! Bookkeeping of the glyph shaders: where each glyph's triangles lie in the
//! shared vertex data, and how many vertices an instanced draw needs.

use vstd::prelude::*;
use std::collections::BTreeMap;

verus! {

broadcast use {
    vstd::std_specs::btree::group_btree_axioms,
    vstd::laws_cmp::group_laws_cmp,
};

/// Where a glyph's triangles lie: the index of its first triangle, then its
/// fill triangles, then its stroke triangles.
#[derive(Clone, Copy, Debug, PartialEq, Eq, Structural)]
pub struct ShaderGlyphHeader {
    pub index: u16,
    pub num_fill_triangles: u16,
    pub num_stroke_triangles: u16,
    pub padding: u16,
}

/// Why a glyph could not be added.
#[derive(Clone, Copy, Debug, PartialEq, Eq, Structural)]
pub enum GlyphShaderError {
    /// The shared vertex data already holds more than 65535 triangles.
    TooManyVertices,
}

/// The glyphs a glyph shader has tessellated, keyed by the glyph's 128-bit identifier.
pub struct GlyphShaderTables {
    pub glyph_map: BTreeMap<u128, ShaderGlyphHeader>,
    pub max_glyph_num_triangles: usize,
}

impl GlyphShaderTables {
    pub fn new() -> (r: Self)
        ensures
            r.glyph_map@ == Map::<u128, ShaderGlyphHeader>::empty(),
            r.max_glyph_num_triangles == 0,
    {
        Self { glyph_map: BTreeMap::new(), max_glyph_num_triangles: 0 }
    }

    /// The header of a glyph tessellated before.
    pub fn known_glyph(&self, id: u128) -> (r: Option<ShaderGlyphHeader>)
        ensures
            r == (if self.glyph_map@.contains_key(id) {
                Some(self.glyph_map@[id])
            } else {
                None
            }),
    {
        match self.glyph_map.get(&id) {
            Some(h) => Some(*h),
            None => None,
        }
    }

    /// Forgets all glyphs.
    pub fn clear_glyphs(&mut self)
        ensures
            final(self).glyph_map@ == Map::<u128, ShaderGlyphHeader>::empty(),
            final(self).max_glyph_num_triangles == 0,
    {
        self.max_glyph_num_triangles = 0;
        self.glyph_map.clear();
    }

    /// Records a new glyph whose fill and stroke tessellations (given by their
    /// numbers of triangle indices) were appended to the vertex data starting at
    /// triangle `index`.
    pub fn add_glyph(&mut self, id: u128, index: u16, fill_index_count: usize, stroke_index_count: usize) -> (r: ShaderGlyphHeader)
        requires
            !old(self).glyph_map@.contains_key(id),
            fill_index_count / 3 <= u16::MAX,
            stroke_index_count / 3 <= u16::MAX,
        ensures
            r == (ShaderGlyphHeader {
                index,
                num_fill_triangles: (fill_index_count / 3) as u16,
                num_stroke_triangles: (stroke_index_count / 3) as u16,
                padding: 0,
            }),
            final(self).glyph_map@ == old(self).glyph_map@.insert(id, r),
            final(self).max_glyph_num_triangles == (if fill_index_count / 3 + stroke_index_count / 3
                > old(self).max_glyph_num_triangles {
                (fill_index_count / 3 + stroke_index_count / 3) as usize
            } else {
                old(self).max_glyph_num_triangles
            }),
    {
        let num_fill_triangles = fill_index_count / 3;
        let num_stroke_triangles = stroke_index_count / 3;
        let total = num_fill_triangles + num_stroke_triangles;
        if total > self.max_glyph_num_triangles {
            self.max_glyph_num_triangles = total;
        }
        let header = ShaderGlyphHeader {
            index,
            num_fill_triangles: num_fill_triangles as u16,
            num_stroke_triangles: num_stroke_triangles as u16,
            padding: 0,
        };
        self.glyph_map.insert(id, header);
        header
    }
}

/// The index of the first triangle of a glyph appended to vertex data that
/// holds `vertices_len` vertices; refused once that index no longer fits in 16 bits.
pub fn next_glyph_index(vertices_len: usize) -> (r: Result<u16, GlyphShaderError>)
    ensures
        vertices_len / 3 <= u16::MAX ==> r == Ok::<u16, GlyphShaderError>((vertices_len / 3) as u16),
        vertices_len / 3 > u16::MAX ==> r == Err::<u16, GlyphShaderError>(GlyphShaderError::TooManyVertices),
{
    let index = vertices_len / 3;
    if index <= 65535 {
        Ok(index as u16)
    } else {
        Err(GlyphShaderError::TooManyVertices)
    }
}

/// Width in vertices of a row of the vertex data texture.
pub const DATA_ROW_SIZE: usize = 2048;

/// The storage length after growing by whole rows from `len` until it exceeds `needed`.
pub open spec fn grown_len(len: int, needed: int) -> int
    decreases needed - len + DATA_ROW_SIZE,
{
    if needed < len || len < 0 {
        len
    } else {
        grown_len(len + DATA_ROW_SIZE, needed)
    }
}

/// The vertices of all glyphs, one glyph's triangle vertices after the other,
/// in storage padded with whole rows of `zero` so that it fills whole texture rows.
pub struct GlyphVertexData<T> {
    pub vertices: Vec<T>,
    pub num_vertices: usize,
    pub max_glyph_num_vertices: usize,
    /// How many rows the texture on the GPU has.
    pub texture_rows: usize,
}

impl<T: Copy> GlyphVertexData<T> {
    /// The used vertices lie within the storage, which holds whole rows.
    pub open spec fn wf(&self) -> bool {
        &&& self.num_vertices <= self.vertices@.len()
        &&& self.vertices@.len() % (DATA_ROW_SIZE as nat) == 0
    }

    pub fn new() -> (r: Self)
        ensures
            r.wf(),
            r.vertices@.len() == 0,
            r.num_vertices == 0,
            r.max_glyph_num_vertices == 0,
            r.texture_rows == 0,
    {
        Self { vertices: Vec::new(), num_vertices: 0, max_glyph_num_vertices: 0, texture_rows: 0 }
    }

    /// Forgets all glyphs and their storage; the texture keeps its size.
    pub fn clear_glyphs(&mut self)
        ensures
            final(self).wf(),
            final(self).vertices@.len() == 0,
            final(self).num_vertices == 0,
            final(self).max_glyph_num_vertices == 0,
            final(self).texture_rows == old(self).texture_rows,
    {
        self.max_glyph_num_vertices = 0;
        self.num_vertices = 0;
        self.vertices.clear();
    }

    /// Appends a glyph's triangle vertices: for each index `i`, the vertex
    /// `vertices[i - index_offset]`. Storage grows by whole rows of `zero` until
    /// the used part plus the new vertices lies strictly within it. Returns the
    /// glyph's first vertex and its number of vertices.
    pub fn glyph_data(&mut self, vertices: &[T], indices: &[u16], index_offset: u16, zero: T) -> (r: (u16, u16))
        requires
            old(self).wf(),
            old(self).num_vertices <= u16::MAX,
            indices@.len() <= u16::MAX,
            forall|k: int|
                0 <= k < indices@.len() ==> index_offset <= #[trigger] indices@[k] && indices@[k]
                    - index_offset < vertices@.len(),
            old(self).num_vertices + indices@.len() + DATA_ROW_SIZE <= usize::MAX,
        ensures
            final(self).wf(),
            r == (old(self).num_vertices as u16, indices@.len() as u16),
            final(self).num_vertices == old(self).num_vertices + indices@.len(),
            final(self).vertices@.len() == grown_len(
                old(self).vertices@.len() as int,
                old(self).num_vertices + indices@.len(),
            ),
            forall|i: int|
                0 <= i < old(self).vertices@.len() && !(old(self).num_vertices <= i
                    < old(self).num_vertices + indices@.len()) ==> #[trigger] final(self).vertices@[i]
                    == old(self).vertices@[i],
            forall|i: int|
                old(self).vertices@.len() <= i < final(self).vertices@.len() && !(
                old(self).num_vertices <= i < old(self).num_vertices + indices@.len())
                    ==> #[trigger] final(self).vertices@[i] == zero,
            forall|k: int|
                0 <= k < indices@.len() ==> #[trigger] final(self).vertices@[old(self).num_vertices + k]
                    == vertices@[indices@[k] - index_offset],
            final(self).max_glyph_num_vertices == (if indices@.len() > old(self).max_glyph_num_vertices {
                indices@.len() as usize
            } else {
                old(self).max_glyph_num_vertices
            }),
            final(self).texture_rows == old(self).texture_rows,
    {
        let glyph_index = self.num_vertices;
        let glyph_num_vertices = indices.len();
        while self.num_vertices + glyph_num_vertices >= self.vertices.len()
            invariant
                self.num_vertices == old(self).num_vertices,
                glyph_num_vertices == indices@.len(),
                self.num_vertices + glyph_num_vertices + DATA_ROW_SIZE <= usize::MAX,
                old(self).vertices@.len() <= self.vertices@.len(),
                self.vertices@.len() % (DATA_ROW_SIZE as nat) == 0,
                grown_len(self.vertices@.len() as int, self.num_vertices + glyph_num_vertices)
                    == grown_len(old(self).vertices@.len() as int, self.num_vertices + glyph_num_vertices),
                self.vertices@.len() == old(self).vertices@.len() || self.vertices@.len()
                    <= self.num_vertices + glyph_num_vertices + DATA_ROW_SIZE,
                self.vertices@.take(old(self).vertices@.len() as int) == old(self).vertices@,
                forall|i: int|
                    old(self).vertices@.len() <= i < self.vertices@.len() ==> #[trigger] self.vertices@[i]
                        == zero,
                self.max_glyph_num_vertices == old(self).max_glyph_num_vertices,
                self.texture_rows == old(self).texture_rows,
            decreases self.num_vertices + glyph_num_vertices + DATA_ROW_SIZE - self.vertices@.len(),
        {
            let ghost before = self.vertices@;
            let mut k: usize = 0;
            while k < DATA_ROW_SIZE
                invariant
                    k <= DATA_ROW_SIZE,
                    self.vertices@.len() == before.len() + k,
                    self.vertices@.take(before.len() as int) == before,
                    forall|i: int| before.len() <= i < self.vertices@.len() ==> #[trigger] self.vertices@[i] == zero,
                    self.num_vertices == old(self).num_vertices,
                    self.max_glyph_num_vertices == old(self).max_glyph_num_vertices,
                    self.texture_rows == old(self).texture_rows,
                decreases DATA_ROW_SIZE - k,
            {
                let ghost prev = self.vertices@;
                self.vertices.push(zero);
                proof {
                    assert(self.vertices@.take(before.len() as int) =~= prev.take(before.len() as int));
                }
                k = k + 1;
            }
            proof {
                vstd::arithmetic::div_mod::lemma_mod_adds(
                    before.len() as int,
                    DATA_ROW_SIZE as int,
                    DATA_ROW_SIZE as int,
                );
                assert(self.vertices@.take(old(self).vertices@.len() as int) =~= before.take(
                    old(self).vertices@.len() as int,
                ));
                assert forall|i: int|
                    old(self).vertices@.len() <= i < self.vertices@.len() implies #[trigger] self.vertices@[i]
                        == zero by {
                    if i < before.len() {
                        assert(self.vertices@.take(before.len() as int)[i] == before[i]);
                    }
                }
            }
        }
        proof {
            assert forall|i: int|
                0 <= i < old(self).vertices@.len() implies #[trigger] self.vertices@[i] == old(
                self,
            ).vertices@[i] by {
                assert(self.vertices@.take(old(self).vertices@.len() as int)[i] == old(self).vertices@[i]);
            }
        }
        let mut j: usize = 0;
        while j < glyph_num_vertices
            invariant
                j <= glyph_num_vertices == indices@.len(),
                self.num_vertices == old(self).num_vertices,
                self.num_vertices + glyph_num_vertices + DATA_ROW_SIZE <= usize::MAX,
                self.num_vertices + glyph_num_vertices < self.vertices@.len(),
                self.vertices@.len() % (DATA_ROW_SIZE as nat) == 0,
                old(self).vertices@.len() <= self.vertices@.len(),
                self.vertices@.len() == grown_len(
                    old(self).vertices@.len() as int,
                    old(self).num_vertices + indices@.len(),
                ),
                forall|i: int|
                    0 <= i < old(self).vertices@.len() && !(old(self).num_vertices <= i
                        < old(self).num_vertices + indices@.len()) ==> #[trigger] self.vertices@[i]
                        == old(self).vertices@[i],
                forall|i: int|
                    old(self).vertices@.len() <= i < self.vertices@.len() && !(
                    old(self).num_vertices <= i < old(self).num_vertices + indices@.len())
                        ==> #[trigger] self.vertices@[i] == zero,
                self.max_glyph_num_vertices == old(self).max_glyph_num_vertices,
                self.texture_rows == old(self).texture_rows,
                forall|k: int|
                    0 <= k < indices@.len() ==> index_offset <= #[trigger] indices@[k] && indices@[k]
                        - index_offset < vertices@.len(),
                forall|k: int|
                    0 <= k < j ==> #[trigger] self.vertices@[old(self).num_vertices + k]
                        == vertices@[indices@[k] - index_offset],
            decreases glyph_num_vertices - j,
        {
            let i = indices[j];
            let v = vertices[(i - index_offset) as usize];
            self.vertices.set(self.num_vertices + j, v);
            j = j + 1;
        }
        self.num_vertices = self.num_vertices + glyph_num_vertices;
        if glyph_num_vertices > self.max_glyph_num_vertices {
            self.max_glyph_num_vertices = glyph_num_vertices;
        }
        (glyph_index as u16, glyph_num_vertices as u16)
    }

    /// The number of rows the texture must be given before the vertices are
    /// uploaded, if it has to grow; the texture is then recorded as that large.
    pub fn rows_to_allocate(&mut self) -> (r: Option<usize>)
        ensures
            final(self).vertices@ == old(self).vertices@,
            final(self).num_vertices == old(self).num_vertices,
            final(self).max_glyph_num_vertices == old(self).max_glyph_num_vertices,
            ({
                let needed = old(self).vertices@.len() / (DATA_ROW_SIZE as nat);
                if needed <= old(self).texture_rows {
                    &&& r == None::<usize>
                    &&& final(self).texture_rows == old(self).texture_rows
                } else {
                    &&& r == Some(needed as usize)
                    &&& final(self).texture_rows == needed
                }
            }),
    {
        let num_rows = self.vertices.len() / DATA_ROW_SIZE;
        if num_rows <= self.texture_rows {
            return None;
        }
        self.texture_rows = num_rows;
        Some(num_rows)
    }
}

} // verus!
