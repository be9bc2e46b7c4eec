//! Interleaved vertex attribute layouts: the byte offset of every attribute in
//! an instance record, the record's stride, and the attribute pointers that a
//! vertex array is set up with.

use vstd::prelude::*;

verus! {

/// The component type of a vertex attribute.
#[derive(Copy, Clone, Debug, PartialEq, Eq, Structural)]
pub enum Type {
    Float,
    Short,
}

impl Type {
    /// Width in bytes of one component: an `f32` takes 4, a `u16` takes 2.
    pub open spec fn spec_size(self) -> int {
        match self {
            Type::Float => 4,
            Type::Short => 2,
        }
    }

    pub fn size(self) -> (r: i32)
        ensures
            r == self.spec_size(),
    {
        match self {
            Type::Float => 4,
            Type::Short => 2,
        }
    }
}

/// One attribute of an instance record: its name in the shader, its number of
/// components and their type.
#[derive(Copy, Clone, Debug)]
pub struct Attribute {
    pub name: &'static str,
    pub size: usize,
    pub ty: Type,
}

impl Attribute {
    pub fn new(name: &'static str, size: usize, ty: Type) -> (r: Self)
        ensures
            r.name == name,
            r.size == size,
            r.ty == ty,
    {
        Self { name, size, ty }
    }

    /// Bytes the attribute takes in a record. The component count is first cast
    /// to `i32`, which keeps its low 32 bits.
    pub open spec fn byte_width(self) -> int {
        self.ty.spec_size() * ((self.size as i32) as int)
    }
}

/// The sum of the byte widths of the first `n` attributes.
pub open spec fn prefix_bytes(attrs: Seq<Attribute>, n: int) -> int
    decreases n,
{
    if n <= 0 {
        0
    } else {
        prefix_bytes(attrs, n - 1) + attrs[n - 1].byte_width()
    }
}

/// Whether summing the byte widths of the first `n` attributes stays within
/// `i32`, every product and every partial sum included.
pub open spec fn prefix_fits_i32(attrs: Seq<Attribute>, n: int) -> bool {
    forall|k: int|
        0 <= k < n ==> {
            &&& i32::MIN <= #[trigger] attrs[k].byte_width() <= i32::MAX
            &&& i32::MIN <= prefix_bytes(attrs, k + 1) <= i32::MAX
        }
}

/// One vertex attribute pointer: where the attribute lives in the bound buffer.
#[derive(Copy, Clone, Debug)]
pub struct AttributePointer {
    pub name: &'static str,
    pub location: u32,
    pub size: i32,
    pub ty: Type,
    pub stride: i32,
    pub offset: i32,
}

/// The layout of an instance record: its attributes in order.
#[derive(Copy, Clone, Debug)]
pub struct Attributes {
    pub attributes: &'static [Attribute],
}

impl Attributes {
    pub fn new(attributes: &'static [Attribute]) -> (r: Self)
        ensures
            r.attributes@ == attributes@,
    {
        Self { attributes }
    }

    /// Byte offset of attribute `idx` in a record.
    pub fn offset(&self, idx: usize) -> (r: i32)
        requires
            idx <= self.attributes@.len(),
            prefix_fits_i32(self.attributes@, idx as int),
        ensures
            r == prefix_bytes(self.attributes@, idx as int),
    {
        let mut total: i32 = 0;
        let mut i: usize = 0;
        while i < idx
            invariant
                i <= idx <= self.attributes@.len(),
                prefix_fits_i32(self.attributes@, idx as int),
                total == prefix_bytes(self.attributes@, i as int),
            decreases idx - i,
        {
            let a = self.attributes[i];
            assert(i32::MIN <= self.attributes@[i as int].byte_width() <= i32::MAX);
            assert(i32::MIN <= prefix_bytes(self.attributes@, i + 1) <= i32::MAX);
            let width = a.ty.size() * (a.size as i32);
            total = total + width;
            i = i + 1;
        }
        total
    }

    /// Byte size of a whole record.
    pub fn stride(&self) -> (r: i32)
        requires
            prefix_fits_i32(self.attributes@, self.attributes@.len() as int),
        ensures
            r == prefix_bytes(self.attributes@, self.attributes@.len() as int),
    {
        self.offset(self.attributes.len())
    }

    /// The attribute pointers a vertex array is set up with, given the location
    /// the shader program reports for each attribute (`-1` when it has none).
    /// The pointers come in attribute order up to the first attribute with a
    /// negative location; that attribute's name is the error that stops the set-up.
    pub fn vertex_layout(&self, locations: &[i32]) -> (r: (Vec<AttributePointer>, Option<&'static str>))
        requires
            locations@.len() == self.attributes@.len(),
            prefix_fits_i32(self.attributes@, self.attributes@.len() as int),
        ensures
            layout_matches(self.attributes@, locations@, r.0@, r.1),
    {
        proof {
            lemma_prefix_fits_shorter(self.attributes@, self.attributes@.len() as int);
        }
        let stride = self.stride();
        let mut pointers: Vec<AttributePointer> = Vec::new();
        let mut idx: usize = 0;
        while idx < self.attributes.len()
            invariant
                idx <= self.attributes@.len() == locations@.len(),
                prefix_fits_i32(self.attributes@, self.attributes@.len() as int),
                stride == prefix_bytes(self.attributes@, self.attributes@.len() as int),
                pointers@.len() == idx,
                forall|k: int| 0 <= k < idx ==> locations@[k] >= 0,
                forall|k: int|
                    0 <= k < idx ==> #[trigger] pointers@[k] == expected_pointer(
                        self.attributes@,
                        locations@,
                        k,
                    ),
            decreases self.attributes@.len() - idx,
        {
            let a = self.attributes[idx];
            let loc = locations[idx];
            if loc < 0 {
                proof {
                    assert(first_missing(locations@) == idx as int) by {
                        lemma_first_missing(locations@, idx as int);
                    }
                }
                return (pointers, Some(a.name));
            }
            proof {
                lemma_prefix_fits_shorter(self.attributes@, idx as int);
            }
            let offset = self.offset(idx);
            let p = AttributePointer {
                name: a.name,
                location: loc as u32,
                size: a.size as i32,
                ty: a.ty,
                stride,
                offset,
            };
            pointers.push(p);
            idx = idx + 1;
        }
        proof {
            lemma_first_missing(locations@, idx as int);
        }
        (pointers, None)
    }
}

/// Fitting in `i32` for a prefix carries over to every shorter prefix.
proof fn lemma_prefix_fits_shorter(attrs: Seq<Attribute>, n: int)
    requires
        prefix_fits_i32(attrs, attrs.len() as int),
        0 <= n <= attrs.len(),
    ensures
        prefix_fits_i32(attrs, n),
{
}

/// When no component count wraps in the cast to `i32`, the attributes tile the
/// record: each starts where the previous one ends, none overlaps a later one,
/// and all of them end within the stride.
pub proof fn lemma_attributes_tile_record(attrs: Seq<Attribute>, j: int, k: int)
    requires
        forall|i: int| 0 <= i < attrs.len() ==> #[trigger] attrs[i].size <= i32::MAX,
        0 <= j < k <= attrs.len(),
    ensures
        prefix_bytes(attrs, j) + attrs[j].byte_width() == prefix_bytes(attrs, j + 1),
        prefix_bytes(attrs, j + 1) <= prefix_bytes(attrs, k),
        prefix_bytes(attrs, k) <= prefix_bytes(attrs, attrs.len() as int),
    decreases attrs.len() - j,
{
    lemma_prefix_monotone(attrs, j + 1, k);
    lemma_prefix_monotone(attrs, k, attrs.len() as int);
}

/// With no wrapping casts, the prefix sums never decrease.
proof fn lemma_prefix_monotone(attrs: Seq<Attribute>, a: int, b: int)
    requires
        forall|i: int| 0 <= i < attrs.len() ==> #[trigger] attrs[i].size <= i32::MAX,
        0 <= a <= b <= attrs.len(),
    ensures
        prefix_bytes(attrs, a) <= prefix_bytes(attrs, b),
    decreases b - a,
{
    if a < b {
        lemma_prefix_monotone(attrs, a, b - 1);
        let x = attrs[b - 1];
        assert(x.size <= i32::MAX);
        assert((x.size as i32) as int == x.size as int);
        assert(x.byte_width() >= 0);
    }
}

/// The pointer that attribute `k` is given.
pub open spec fn expected_pointer(attrs: Seq<Attribute>, locations: Seq<i32>, k: int) -> AttributePointer {
    AttributePointer {
        name: attrs[k].name,
        location: locations[k] as u32,
        size: attrs[k].size as i32,
        ty: attrs[k].ty,
        stride: prefix_bytes(attrs, attrs.len() as int) as i32,
        offset: prefix_bytes(attrs, k) as i32,
    }
}

/// The index of the first negative location, or the length if there is none.
pub open spec fn first_missing(locations: Seq<i32>) -> int
    decreases locations.len(),
{
    if locations.len() == 0 {
        0
    } else if locations[0] < 0 {
        0
    } else {
        1 + first_missing(locations.drop_first())
    }
}

/// `first_missing` is the first index whose location is negative.
proof fn lemma_first_missing(locations: Seq<i32>, i: int)
    requires
        0 <= i <= locations.len(),
        forall|k: int| 0 <= k < i ==> locations[k] >= 0,
        i == locations.len() || locations[i] < 0,
    ensures
        first_missing(locations) == i,
    decreases i,
{
    if i > 0 {
        let rest = locations.drop_first();
        assert forall|k: int| 0 <= k < i - 1 implies rest[k] >= 0 by {
            assert(rest[k] == locations[k + 1]);
        }
        if i < locations.len() {
            assert(rest[i - 1] == locations[i]);
        }
        lemma_first_missing(rest, i - 1);
    }
}

/// What `vertex_layout` answers: one pointer per attribute before the first one
/// without a location, and that attribute's name, if there is one.
pub open spec fn layout_matches(
    attrs: Seq<Attribute>,
    locations: Seq<i32>,
    pointers: Seq<AttributePointer>,
    missing: Option<&'static str>,
) -> bool {
    let n = first_missing(locations);
    &&& pointers.len() == n
    &&& forall|k: int| 0 <= k < n ==> #[trigger] pointers[k] == expected_pointer(attrs, locations, k)
    &&& match missing {
        Some(name) => n < attrs.len() && name == attrs[n].name,
        None => n == attrs.len(),
    }
}

} // verus!
