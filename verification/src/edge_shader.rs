//! Bookkeeping of the edge shader: which texture rows hold which dash pattern,
//! which glyph boundary and which arrow tip an edge instance refers to, and
//! when the textures that hold them must grow.

use vstd::prelude::*;
use std::collections::BTreeMap;

verus! {

broadcast use {
    vstd::std_specs::btree::group_btree_axioms,
    vstd::laws_cmp::group_laws_cmp,
};

/// Width in texels of a row of the dash pattern texture: every dash pattern
/// takes one row.
pub const DASH_PATTERN_TEXTURE_WIDTH: usize = 512;

/// The texel value of run `i` of a pattern: even runs are dashes (255), odd
/// runs are gaps (0); negated, the other way round.
pub open spec fn run_value(i: int, negated: bool) -> u8 {
    if (i % 2 == 1) != negated { 0 } else { 255 }
}

/// The runs of a pattern laid out one after the other: run `i` is `pattern[i]`
/// texels of `run_value(i, negated)`.
pub open spec fn runs(pattern: Seq<u8>, negated: bool) -> Seq<u8>
    decreases pattern.len(),
{
    if pattern.len() == 0 {
        Seq::empty()
    } else {
        runs(pattern.drop_last(), negated) + Seq::new(
            pattern.last() as nat,
            |j: int| run_value(pattern.len() - 1, negated),
        )
    }
}

/// The texels a pattern is written as before it is cut or padded to a row: its
/// runs, then, for a pattern of odd length, its runs again with dashes and gaps
/// swapped (so that the doubled period has an even number of runs), then one
/// dash texel.
pub open spec fn dash_texels(pattern: Seq<u8>) -> Seq<u8> {
    runs(pattern, false) + (if pattern.len() % 2 == 1 {
        runs(pattern, true)
    } else {
        Seq::empty()
    }) + seq![255u8]
}

/// The row a pattern takes in the dash texture: its texels, cut to the row
/// width or padded with zeros.
pub open spec fn dash_row(pattern: Seq<u8>) -> Seq<u8> {
    let t = dash_texels(pattern);
    if t.len() >= DASH_PATTERN_TEXTURE_WIDTH {
        t.take(DASH_PATTERN_TEXTURE_WIDTH as int)
    } else {
        t + Seq::new((DASH_PATTERN_TEXTURE_WIDTH - t.len()) as nat, |j: int| 0u8)
    }
}

/// The sum of a pattern's run lengths: the length of one period.
pub open spec fn pattern_length(pattern: Seq<u8>) -> int
    decreases pattern.len(),
{
    if pattern.len() == 0 {
        0
    } else {
        pattern_length(pattern.drop_last()) + pattern.last()
    }
}

/// The value stored for the first entry with the given key.
pub open spec fn lookup(entries: Seq<(Vec<u8>, (u16, u16))>, key: Seq<u8>) -> Option<(u16, u16)>
    decreases entries.len(),
{
    if entries.len() == 0 {
        None
    } else if entries[0].0@ == key {
        Some(entries[0].1)
    } else {
        lookup(entries.drop_first(), key)
    }
}

/// The dash patterns an edge shader has written into its dash texture.
pub struct DashPatterns {
    /// The texels of the dash texture, row after row.
    pub data: Vec<u8>,
    /// Each pattern with its texture row and its period length.
    pub entries: Vec<(Vec<u8>, (u16, u16))>,
    /// How many rows the texture on the GPU has.
    pub texture_num_rows: usize,
}

impl DashPatterns {
    /// The texture data holds whole rows.
    pub open spec fn wf(&self) -> bool {
        self.data@.len() % (DASH_PATTERN_TEXTURE_WIDTH as nat) == 0
    }

    /// The patterns known, each with its row and period length.
    pub open spec fn known(&self, pattern: Seq<u8>) -> Option<(u16, u16)> {
        lookup(self.entries@, pattern)
    }

    /// No texture yet, no texels; the empty pattern is known as row 0 of length 0.
    pub fn new() -> (r: Self)
        ensures
            r.wf(),
            r.data@.len() == 0,
            r.texture_num_rows == 0,
            r.entries@.len() == 1,
            r.known(Seq::empty()) == Some((0u16, 0u16)),
    {
        let mut entries: Vec<(Vec<u8>, (u16, u16))> = Vec::new();
        entries.push((Vec::new(), (0, 0)));
        assert(entries@[0].0@ =~= Seq::<u8>::empty());
        Self { data: Vec::new(), entries, texture_num_rows: 0 }
    }

    /// The row and period length of a dash pattern. A pattern seen before keeps
    /// its row; a new one is written into a new row at the end of the data.
    pub fn dash_data(&mut self, dash_pattern: Vec<u8>) -> (r: (u16, u16))
        requires
            old(self).wf(),
            pattern_length(dash_pattern@) <= u16::MAX,
            old(self).data@.len() + DASH_PATTERN_TEXTURE_WIDTH <= usize::MAX,
        ensures
            final(self).wf(),
            final(self).texture_num_rows == old(self).texture_num_rows,
            match old(self).known(dash_pattern@) {
                Some(v) => {
                    &&& r == v
                    &&& final(self).data@ == old(self).data@
                    &&& final(self).entries@ == old(self).entries@
                },
                None => {
                    &&& r.0 == ((old(self).data@.len() / (DASH_PATTERN_TEXTURE_WIDTH as nat)) as u16)
                    &&& r.1 == pattern_length(dash_pattern@)
                    &&& final(self).data@ == old(self).data@ + dash_row(dash_pattern@)
                    &&& final(self).entries@.len() == old(self).entries@.len() + 1
                    &&& final(self).entries@.drop_last() == old(self).entries@
                    &&& final(self).entries@.last().0@ == dash_pattern@
                    &&& final(self).entries@.last().1 == r
                },
            },
            final(self).known(dash_pattern@) == Some(r),
    {
        let found = self.find(&dash_pattern);
        if let Some(v) = found {
            return v;
        }
        let orig_dash_data_len = self.data.len();
        let dash_pattern_row = orig_dash_data_len / DASH_PATTERN_TEXTURE_WIDTH;
        let row = encode_dash_row(&dash_pattern);
        let mut i: usize = 0;
        while i < row.len()
            invariant
                0 <= i <= row@.len() == DASH_PATTERN_TEXTURE_WIDTH,
                orig_dash_data_len == old(self).data@.len(),
                self.data@ == old(self).data@ + row@.take(i as int),
                self.entries@ == old(self).entries@,
                self.texture_num_rows == old(self).texture_num_rows,
                orig_dash_data_len + DASH_PATTERN_TEXTURE_WIDTH <= usize::MAX,
            decreases row@.len() - i,
        {
            self.data.push(row[i]);
            i = i + 1;
            assert(self.data@ =~= old(self).data@ + row@.take(i as int));
        }
        assert(row@.take(row@.len() as int) =~= row@);
        let pattern_len = sum_pattern(&dash_pattern);
        let value = (dash_pattern_row as u16, pattern_len);
        let ghost old_entries = self.entries@;
        self.entries.push((dash_pattern, value));
        proof {
            assert(self.entries@.drop_last() =~= old_entries);
            lemma_lookup_append(old_entries, self.entries@.last(), self.entries@.last().0@);
            assert(self.entries@ =~= old_entries.push(self.entries@.last()));
            vstd::arithmetic::div_mod::lemma_mod_adds(
                old(self).data@.len() as int,
                DASH_PATTERN_TEXTURE_WIDTH as int,
                DASH_PATTERN_TEXTURE_WIDTH as int,
            );
        }
        value
    }

    /// The stored value for a pattern, if it is known.
    fn find(&self, pattern: &Vec<u8>) -> (r: Option<(u16, u16)>)
        ensures
            r == self.known(pattern@),
    {
        let mut i: usize = 0;
        assert(self.entries@.skip(0) =~= self.entries@);
        while i < self.entries.len()
            invariant
                0 <= i <= self.entries@.len(),
                lookup(self.entries@, pattern@) == lookup(self.entries@.skip(i as int), pattern@),
            decreases self.entries@.len() - i,
        {
            let ghost rest = self.entries@.skip(i as int);
            assert(rest[0] == self.entries@[i as int]);
            assert(rest.drop_first() =~= self.entries@.skip(i + 1));
            if bytes_equal(&self.entries[i].0, pattern) {
                return Some(self.entries[i].1);
            }
            i = i + 1;
        }
        None
    }

    /// The number of rows the texture must be given before the data is uploaded,
    /// if it has to grow; the texture is then recorded as that large.
    pub fn rows_to_allocate(&mut self) -> (r: Option<usize>)
        ensures
            final(self).data@ == old(self).data@,
            final(self).entries@ == old(self).entries@,
            ({
                let needed = old(self).data@.len() / (DASH_PATTERN_TEXTURE_WIDTH as nat);
                if needed <= old(self).texture_num_rows {
                    &&& r == None::<usize>
                    &&& final(self).texture_num_rows == old(self).texture_num_rows
                } else {
                    &&& r == Some(needed as usize)
                    &&& final(self).texture_num_rows == needed
                }
            }),
    {
        let num_rows = self.data.len() / DASH_PATTERN_TEXTURE_WIDTH;
        if num_rows <= self.texture_num_rows {
            return None;
        }
        self.texture_num_rows = num_rows;
        Some(num_rows)
    }
}

/// A pattern found again keeps its value.
proof fn lemma_lookup_append(
    entries: Seq<(Vec<u8>, (u16, u16))>,
    e: (Vec<u8>, (u16, u16)),
    key: Seq<u8>,
)
    requires
        lookup(entries, key) is None,
        e.0@ == key,
    ensures
        lookup(entries.push(e), key) == Some(e.1),
    decreases entries.len(),
{
    if entries.len() > 0 {
        assert(entries.push(e).drop_first() =~= entries.drop_first().push(e));
        lemma_lookup_append(entries.drop_first(), e, key);
    }
}

/// Adding a pattern leaves what every other pattern is known as unchanged.
pub proof fn lemma_lookup_push_other(
    entries: Seq<(Vec<u8>, (u16, u16))>,
    e: (Vec<u8>, (u16, u16)),
    key: Seq<u8>,
)
    requires
        e.0@ != key,
    ensures
        lookup(entries.push(e), key) == lookup(entries, key),
    decreases entries.len(),
{
    if entries.len() > 0 {
        assert(entries.push(e).drop_first() =~= entries.drop_first().push(e));
        lemma_lookup_push_other(entries.drop_first(), e, key);
    } else {
        assert(entries.push(e).drop_first() =~= entries);
    }
}

/// Whether two byte vectors hold the same bytes.
fn bytes_equal(a: &Vec<u8>, b: &Vec<u8>) -> (r: bool)
    ensures
        r == (a@ == b@),
{
    if a.len() != b.len() {
        return false;
    }
    let mut i: usize = 0;
    while i < a.len()
        invariant
            0 <= i <= a@.len() == b@.len(),
            forall|k: int| 0 <= k < i ==> a@[k] == b@[k],
        decreases a@.len() - i,
    {
        if a[i] != b[i] {
            return false;
        }
        i = i + 1;
    }
    assert(a@ =~= b@);
    true
}

/// The period length of a pattern.
fn sum_pattern(pattern: &Vec<u8>) -> (r: u16)
    requires
        pattern_length(pattern@) <= u16::MAX,
    ensures
        r == pattern_length(pattern@),
{
    let mut total: u16 = 0;
    let mut i: usize = 0;
    while i < pattern.len()
        invariant
            0 <= i <= pattern@.len(),
            pattern_length(pattern@) <= u16::MAX,
            total == pattern_length(pattern@.take(i as int)),
        decreases pattern@.len() - i,
    {
        proof {
            assert(pattern@.take(i + 1).drop_last() =~= pattern@.take(i as int));
            lemma_pattern_length_prefix(pattern@, i + 1);
        }
        total = total + pattern[i] as u16;
        i = i + 1;
    }
    assert(pattern@.take(pattern@.len() as int) =~= pattern@);
    total
}

/// A prefix of a pattern is no longer than the pattern.
proof fn lemma_pattern_length_prefix(pattern: Seq<u8>, n: int)
    requires
        0 <= n <= pattern.len(),
    ensures
        pattern_length(pattern.take(n)) <= pattern_length(pattern),
    decreases pattern.len(),
{
    if n < pattern.len() {
        assert(pattern.drop_last().take(n) =~= pattern.take(n));
        lemma_pattern_length_prefix(pattern.drop_last(), n);
    } else {
        assert(pattern.take(n) =~= pattern);
    }
}

/// Appends the runs of a pattern to `out`.
fn push_runs(out: &mut Vec<u8>, pattern: &Vec<u8>, negated: bool)
    ensures
        final(out)@ == old(out)@ + runs(pattern@, negated),
{
    let mut i: usize = 0;
    while i < pattern.len()
        invariant
            0 <= i <= pattern@.len(),
            out@ == old(out)@ + runs(pattern@.take(i as int), negated),
        decreases pattern@.len() - i,
    {
        let value: u8 = if (i % 2 == 1) != negated { 0 } else { 255 };
        let e = pattern[i];
        let ghost before = out@;
        let mut k: u8 = 0;
        while k < e
            invariant
                k <= e,
                out@ == before + Seq::new(k as nat, |j: int| value),
            decreases e - k,
        {
            out.push(value);
            k = k + 1;
            assert(out@ =~= before + Seq::new(k as nat, |j: int| value));
        }
        proof {
            let p = pattern@.take(i + 1);
            assert(p.drop_last() =~= pattern@.take(i as int));
            assert(runs(p, negated) == runs(p.drop_last(), negated) + Seq::new(
                p.last() as nat,
                |j: int| run_value(p.len() - 1, negated),
            ));
            assert(Seq::new(e as nat, |j: int| value) =~= Seq::new(
                p.last() as nat,
                |j: int| run_value(p.len() - 1, negated),
            ));
            assert(out@ =~= old(out)@ + runs(p, negated));
        }
        i = i + 1;
    }
    assert(pattern@.take(pattern@.len() as int) =~= pattern@);
}

/// The row a pattern takes in the dash texture.
pub fn encode_dash_row(dash_pattern: &Vec<u8>) -> (r: Vec<u8>)
    ensures
        r@ == dash_row(dash_pattern@),
        r@.len() == DASH_PATTERN_TEXTURE_WIDTH,
{
    let mut texels: Vec<u8> = Vec::new();
    push_runs(&mut texels, dash_pattern, false);
    if dash_pattern.len() % 2 == 1 {
        push_runs(&mut texels, dash_pattern, true);
    }
    texels.push(255);
    assert(texels@ =~= dash_texels(dash_pattern@));
    let mut row: Vec<u8> = Vec::new();
    let mut i: usize = 0;
    while i < DASH_PATTERN_TEXTURE_WIDTH
        invariant
            0 <= i <= DASH_PATTERN_TEXTURE_WIDTH,
            texels@ == dash_texels(dash_pattern@),
            row@.len() == i,
            forall|k: int| 0 <= k < i ==> #[trigger] row@[k] == dash_row(dash_pattern@)[k],
        decreases DASH_PATTERN_TEXTURE_WIDTH - i,
    {
        let v = if i < texels.len() { texels[i] } else { 0 };
        row.push(v);
        i = i + 1;
    }
    assert(row@ =~= dash_row(dash_pattern@));
    row
}

/// The runs of a pattern fill one period.
proof fn lemma_runs_len(pattern: Seq<u8>, negated: bool)
    ensures
        runs(pattern, negated).len() == pattern_length(pattern),
    decreases pattern.len(),
{
    if pattern.len() > 0 {
        lemma_runs_len(pattern.drop_last(), negated);
    }
}

/// Texel `t` of a pattern's runs lies in run `k` when the runs before `k` end
/// at or before `t` and run `k` ends after it.
proof fn lemma_runs_at(pattern: Seq<u8>, negated: bool, k: int, t: int)
    requires
        0 <= k < pattern.len(),
        pattern_length(pattern.take(k)) <= t < pattern_length(pattern.take(k + 1)),
    ensures
        runs(pattern, negated)[t] == run_value(k, negated),
    decreases pattern.len(),
{
    let init = pattern.drop_last();
    lemma_runs_len(init, negated);
    lemma_runs_len(pattern.take(k), negated);
    if k == pattern.len() - 1 {
        assert(pattern.take(k) =~= init);
        assert(pattern.take(k + 1) =~= pattern);
        assert(runs(pattern, negated) == runs(init, negated) + Seq::new(
            pattern.last() as nat,
            |j: int| run_value(pattern.len() - 1, negated),
        ));
    } else {
        assert(pattern.take(k) =~= init.take(k));
        assert(pattern.take(k + 1) =~= init.take(k + 1));
        lemma_pattern_length_prefix(init, k + 1);
        lemma_runs_at(init, negated, k, t);
    }
}

/// The negated runs of a pattern are its runs with dashes and gaps swapped,
/// texel by texel.
proof fn lemma_runs_negated(pattern: Seq<u8>)
    ensures
        runs(pattern, true).len() == runs(pattern, false).len(),
        forall|t: int|
            0 <= t < runs(pattern, false).len() ==> #[trigger] runs(pattern, true)[t] == 255 - runs(
                pattern,
                false,
            )[t],
    decreases pattern.len(),
{
    if pattern.len() > 0 {
        lemma_runs_negated(pattern.drop_last());
    }
}

/// The start of a pattern's row is its first period: texel `t` of run `k`
/// (the runs before `k` end at or before `t`, run `k` ends after it) is a
/// dash (255) for an even `k` and a gap (0) for an odd one.
pub proof fn lemma_dash_row_runs(pattern: Seq<u8>, k: int, t: int)
    requires
        0 <= k < pattern.len(),
        pattern_length(pattern.take(k)) <= t < pattern_length(pattern.take(k + 1)),
        t < DASH_PATTERN_TEXTURE_WIDTH,
    ensures
        dash_row(pattern)[t] == (if k % 2 == 0 {
            255u8
        } else {
            0u8
        }),
{
    lemma_runs_len(pattern, false);
    lemma_runs_len(pattern.take(k), false);
    lemma_pattern_length_prefix(pattern, k + 1);
    lemma_runs_at(pattern, false, k, t);
    let tex = dash_texels(pattern);
    assert(tex[t] == runs(pattern, false)[t]);
}

/// A pattern of odd length is doubled with its negation: for every texel `t`
/// of the first period `L` that lies, with its partner `L + t`, within the
/// row, texel `L + t` is texel `t` with dashes and gaps swapped.
pub proof fn lemma_dash_row_negated_period(pattern: Seq<u8>, t: int)
    requires
        pattern.len() % 2 == 1,
        0 <= t < pattern_length(pattern),
        pattern_length(pattern) + t < DASH_PATTERN_TEXTURE_WIDTH,
    ensures
        dash_row(pattern)[pattern_length(pattern) + t] == 255 - dash_row(pattern)[t],
{
    lemma_runs_len(pattern, false);
    lemma_runs_len(pattern, true);
    lemma_runs_negated(pattern);
    let l = pattern_length(pattern);
    let tex = dash_texels(pattern);
    assert(tex[t] == runs(pattern, false)[t]);
    assert(tex[l + t] == runs(pattern, true)[t]);
}

/// After its period (doubled for a pattern of odd length) a row holds one
/// dash texel, then gaps up to the row's end.
pub proof fn lemma_dash_row_tail(pattern: Seq<u8>)
    ensures
        ({
            let end = if pattern.len() % 2 == 1 {
                2 * pattern_length(pattern)
            } else {
                pattern_length(pattern)
            };
            end < DASH_PATTERN_TEXTURE_WIDTH ==> {
                &&& dash_row(pattern)[end] == 255u8
                &&& forall|t: int|
                    end < t < DASH_PATTERN_TEXTURE_WIDTH ==> #[trigger] dash_row(pattern)[t] == 0u8
            }
        }),
{
    lemma_runs_len(pattern, false);
    lemma_runs_len(pattern, true);
    let tex = dash_texels(pattern);
    let end = if pattern.len() % 2 == 1 {
        2 * pattern_length(pattern)
    } else {
        pattern_length(pattern)
    };
    assert(tex.len() == end + 1);
    if end < DASH_PATTERN_TEXTURE_WIDTH {
        assert(tex[end] == 255u8);
    }
}

/// Whether the row a pattern was given lies within the texture data.
pub open spec fn row_in_texture(data: Seq<u8>, row: u16) -> bool {
    (row as int + 1) * (DASH_PATTERN_TEXTURE_WIDTH as int) <= data.len()
}

/// A new pattern's row is the row its texels were written to, and lies within
/// the data, as long as the row number fits in 16 bits.
pub proof fn lemma_new_pattern_row(data: Seq<u8>, pattern: Seq<u8>)
    requires
        data.len() % (DASH_PATTERN_TEXTURE_WIDTH as nat) == 0,
        data.len() / (DASH_PATTERN_TEXTURE_WIDTH as nat) <= u16::MAX,
    ensures
        ({
            let row = (data.len() / (DASH_PATTERN_TEXTURE_WIDTH as nat)) as u16;
            &&& row_in_texture(data + dash_row(pattern), row)
            &&& (data + dash_row(pattern)).subrange(
                row * (DASH_PATTERN_TEXTURE_WIDTH as int),
                (row + 1) * (DASH_PATTERN_TEXTURE_WIDTH as int),
            ) == dash_row(pattern)
        }),
{
    let w = DASH_PATTERN_TEXTURE_WIDTH as int;
    let row = (data.len() / (DASH_PATTERN_TEXTURE_WIDTH as nat)) as u16;
    assert(row * w == data.len()) by {
        vstd::arithmetic::div_mod::lemma_fundamental_div_mod(data.len() as int, w);
    }
    assert(dash_row(pattern).len() == w);
    assert((data + dash_row(pattern)).subrange(row * w, (row + 1) * w) =~= dash_row(pattern));
}

/// The indices of an arrow tip's data in the edge shader's textures.
#[derive(Copy, Clone, Debug, Default, PartialEq, Eq, Structural)]
pub struct ArrowIndices {
    pub num_vertices: u16,
    pub header_index: u16,
    pub vertices_index: u16,
}

/// The index of a glyph's boundary in the glyph boundary texture: the glyph's
/// index times the number of boundary samples per glyph.
pub fn glyph_boundary_index(glyph_index: usize, angle_resolution: usize) -> (r: usize)
    requires
        glyph_index * angle_resolution <= usize::MAX,
    ensures
        r == glyph_index * angle_resolution,
{
    glyph_index * angle_resolution
}

/// Indices handed out to glyphs in the order they are first seen, keyed by the
/// glyph's 128-bit identifier.
pub struct GlyphIndexTable {
    pub map: BTreeMap<u128, u16>,
}

impl GlyphIndexTable {
    pub fn new() -> (r: Self)
        ensures
            r.map@ == Map::<u128, u16>::empty(),
    {
        Self { map: BTreeMap::new() }
    }

    /// The index of a glyph, and whether it was seen for the first time (its
    /// boundary data must then be appended). A new glyph gets the number of
    /// glyphs seen before it, cut to 16 bits.
    pub fn glyph_index(&mut self, id: u128) -> (r: (u16, bool))
        ensures
            old(self).map@.contains_key(id) ==> {
                &&& r == (old(self).map@[id], false)
                &&& final(self).map@ == old(self).map@
            },
            !old(self).map@.contains_key(id) ==> {
                &&& r == ((old(self).map@.len() as u16), true)
                &&& final(self).map@ == old(self).map@.insert(id, r.0)
            },
    {
        let next_glyph_index = self.map.len();
        match self.map.get(&id) {
            Some(v) => (*v, false),
            None => {
                let index = next_glyph_index as u16;
                self.map.insert(id, index);
                (index, true)
            },
        }
    }

    pub fn clear(&mut self)
        ensures
            final(self).map@ == Map::<u128, u16>::empty(),
    {
        self.map.clear();
    }
}

/// The glyph and arrow tip tables of an edge shader.
pub struct EdgeShaderTables {
    pub glyphs: GlyphIndexTable,
    pub tip_map: BTreeMap<u128, ArrowIndices>,
    pub max_arrow_tip_num_vertices: usize,
}

impl EdgeShaderTables {
    pub fn new() -> (r: Self)
        ensures
            r.glyphs.map@ == Map::<u128, u16>::empty(),
            r.tip_map@ == Map::<u128, ArrowIndices>::empty(),
            r.max_arrow_tip_num_vertices == 0,
    {
        Self { glyphs: GlyphIndexTable::new(), tip_map: BTreeMap::new(), max_arrow_tip_num_vertices: 0 }
    }

    /// The indices of an arrow tip that was seen before.
    pub fn known_arrow_tip(&self, id: u128) -> (r: Option<ArrowIndices>)
        ensures
            r == (if self.tip_map@.contains_key(id) {
                Some(self.tip_map@[id])
            } else {
                None
            }),
    {
        match self.tip_map.get(&id) {
            Some(v) => Some(*v),
            None => None,
        }
    }

    /// Records a new arrow tip whose `num_vertices` vertices were appended to the
    /// arrow path data at `vertices_index`; its header is the next one. The
    /// indices are cut to 16 bits.
    pub fn add_arrow_tip(&mut self, id: u128, vertices_index: usize, num_vertices: usize) -> (r: ArrowIndices)
        requires
            !old(self).tip_map@.contains_key(id),
        ensures
            r == (ArrowIndices {
                num_vertices: num_vertices as u16,
                header_index: old(self).tip_map@.len() as u16,
                vertices_index: vertices_index as u16,
            }),
            final(self).tip_map@ == old(self).tip_map@.insert(id, r),
            final(self).max_arrow_tip_num_vertices == (if num_vertices > old(self).max_arrow_tip_num_vertices {
                num_vertices
            } else {
                old(self).max_arrow_tip_num_vertices
            }),
            final(self).glyphs.map@ == old(self).glyphs.map@,
    {
        let next_header_index = self.tip_map.len();
        if num_vertices > self.max_arrow_tip_num_vertices {
            self.max_arrow_tip_num_vertices = num_vertices;
        }
        let arrow_indices = ArrowIndices {
            num_vertices: num_vertices as u16,
            header_index: next_header_index as u16,
            vertices_index: vertices_index as u16,
        };
        self.tip_map.insert(id, arrow_indices);
        arrow_indices
    }

    /// Forgets all glyphs and arrow tips.
    pub fn clear(&mut self)
        ensures
            final(self).glyphs.map@ == Map::<u128, u16>::empty(),
            final(self).tip_map@ == Map::<u128, ArrowIndices>::empty(),
            final(self).max_arrow_tip_num_vertices == 0,
    {
        self.max_arrow_tip_num_vertices = 0;
        self.glyphs.clear();
        self.tip_map.clear();
    }
}

} // verus!
