//! The attribute table of a shader program: which attribute sits at which
//! location, how many vertices each attribute buffer holds, and whether a draw
//! call's vertex count agrees with all of them.

use vstd::prelude::*;

verus! {

/// An attribute slot of a shader program.
#[derive(Debug)]
pub struct AttributeSlot {
    pub name: String,
    pub attribute_type: u32,
    /// Components per vertex; -1 for a slot that holds no attribute yet.
    pub size: i32,
    /// The slot's location; -1 for a slot that holds no attribute yet.
    pub loc: i32,
    /// Vertices in the attribute's buffer; `usize::MAX` for a slot that holds no
    /// attribute and so takes no part in the length check of a draw call.
    pub buffer_size: usize,
}

impl AttributeSlot {
    /// A slot that holds no attribute.
    pub open spec fn is_unused(&self) -> bool {
        &&& self.name@ == Seq::<char>::empty()
        &&& self.attribute_type == u32::MAX
        &&& self.size == -1
        &&& self.loc == -1
        &&& self.buffer_size == usize::MAX
    }

    pub fn new() -> (r: Self)
        ensures
            r.is_unused(),
    {
        AttributeSlot {
            name: String::new(),
            attribute_type: u32::MAX,
            size: -1,
            loc: -1,
            buffer_size: usize::MAX,
        }
    }
}

/// Why a shader refused a call.
#[derive(Debug)]
pub enum ShaderError {
    /// The program has no attribute of this name.
    UnknownAttribute(String),
    /// The data's length is no multiple of the attribute's size.
    NotAMultiple { length: usize, name: String, size: usize },
    /// An attribute buffer holds another number of vertices than the draw call asks for.
    WrongLength { name: String, expected: usize, actual: usize },
}

/// The location a program reports for an attribute, or the error for an
/// attribute it does not have (reported as location -1).
pub fn attrib_location(loc: i32, name: &str) -> (r: Result<i32, ShaderError>)
    ensures
        loc == -1 ==> (r matches Err(ShaderError::UnknownAttribute(n)) && n@ == name@),
        loc != -1 ==> r == Ok::<i32, ShaderError>(loc),
{
    if loc == -1 {
        Err(ShaderError::UnknownAttribute(name.to_owned()))
    } else {
        Ok(loc)
    }
}

/// The attribute slots of a shader program, indexed by location.
pub struct AttributeTable {
    pub attributes: Vec<AttributeSlot>,
}

/// The index of the first slot that holds an attribute whose buffer length
/// differs from `num_vertices`, or the number of slots if there is none.
pub open spec fn first_wrong_length(slots: Seq<AttributeSlot>, num_vertices: usize) -> int
    decreases slots.len(),
{
    if slots.len() == 0 {
        0
    } else if slots[0].buffer_size != num_vertices && slots[0].buffer_size != usize::MAX {
        0
    } else {
        1 + first_wrong_length(slots.drop_first(), num_vertices)
    }
}

/// `first_wrong_length` is the first slot that fails the check.
proof fn lemma_first_wrong_length(slots: Seq<AttributeSlot>, num_vertices: usize, i: int)
    requires
        0 <= i <= slots.len(),
        forall|k: int|
            0 <= k < i ==> #[trigger] slots[k].buffer_size == num_vertices || slots[k].buffer_size
                == usize::MAX,
        i == slots.len() || (slots[i].buffer_size != num_vertices && slots[i].buffer_size
            != usize::MAX),
    ensures
        first_wrong_length(slots, num_vertices) == i,
    decreases i,
{
    if i > 0 {
        let rest = slots.drop_first();
        assert forall|k: int|
            0 <= k < i - 1 implies #[trigger] rest[k].buffer_size == num_vertices
            || rest[k].buffer_size == usize::MAX by {
            assert(rest[k] == slots[k + 1]);
        }
        if i < slots.len() {
            assert(rest[i - 1] == slots[i]);
        }
        lemma_first_wrong_length(rest, num_vertices, i - 1);
    }
}

impl AttributeTable {
    /// A table of `num_attributes` slots that hold no attribute.
    pub fn new(num_attributes: u32) -> (r: Self)
        ensures
            r.attributes@.len() == num_attributes,
            forall|k: int| 0 <= k < num_attributes ==> #[trigger] r.attributes@[k].is_unused(),
    {
        let mut attributes: Vec<AttributeSlot> = Vec::new();
        let mut i: u32 = 0;
        while i < num_attributes
            invariant
                i <= num_attributes,
                attributes@.len() == i,
                forall|k: int| 0 <= k < i ==> #[trigger] attributes@[k].is_unused(),
            decreases num_attributes - i,
        {
            attributes.push(AttributeSlot::new());
            i = i + 1;
        }
        AttributeTable { attributes }
    }

    /// Puts an attribute at its location, with an empty buffer.
    pub fn add_attribute(&mut self, loc: i32, name: &str, size: i32, attribute_type: u32)
        requires
            0 <= loc < old(self).attributes@.len(),
        ensures
            final(self).attributes@.len() == old(self).attributes@.len(),
            forall|k: int|
                0 <= k < old(self).attributes@.len() && k != loc ==> #[trigger] final(self).attributes@[k] == old(self).attributes@[k],
            final(self).attributes@[loc as int].name@ == name@,
            final(self).attributes@[loc as int].attribute_type == attribute_type,
            final(self).attributes@[loc as int].loc == loc,
            final(self).attributes@[loc as int].size == size,
            final(self).attributes@[loc as int].buffer_size == 0,
    {
        let slot = AttributeSlot { name: name.to_owned(), attribute_type, loc, size, buffer_size: 0 };
        self.attributes.set(loc as usize, slot);
    }

    /// Records that the attribute at `loc` was given `length` values: the
    /// buffer then holds `length / size` vertices. A length that is no multiple of
    /// the attribute's size is refused and changes nothing. The size is read as
    /// unsigned, so a slot that holds no attribute (size -1, read as `usize::MAX`)
    /// refuses every length but 0 and `usize::MAX`.
    pub fn set_attribute_data_len(&mut self, loc: usize, length: usize) -> (r: Result<(), ShaderError>)
        requires
            loc < old(self).attributes@.len(),
            old(self).attributes@[loc as int].size != 0,
        ensures
            ({
                let slot = old(self).attributes@[loc as int];
                let size = slot.size as usize;
                if length % size != 0 {
                    &&& (r matches Err(ShaderError::NotAMultiple { length: l, name: n, size: s })
                        && l == length && n@ == slot.name@ && s == size)
                    &&& final(self).attributes@ == old(self).attributes@
                } else {
                    &&& r is Ok
                    &&& final(self).attributes@.len() == old(self).attributes@.len()
                    &&& forall|k: int|
                        0 <= k < old(self).attributes@.len() && k != loc ==> #[trigger] final(self).attributes@[k] == old(self).attributes@[k]
                    &&& final(self).attributes@[loc as int].buffer_size == length / size
                    &&& final(self).attributes@[loc as int].name@ == slot.name@
                    &&& final(self).attributes@[loc as int].size == slot.size
                    &&& final(self).attributes@[loc as int].loc == slot.loc
                    &&& final(self).attributes@[loc as int].attribute_type == slot.attribute_type
                }
            }),
    {
        let size = self.attributes[loc].size;
        assert(size != 0 ==> size as usize != 0) by (bit_vector);
        let attribute_size = size as usize;
        if length % attribute_size != 0 {
            return Err(
                ShaderError::NotAMultiple {
                    length,
                    name: self.attributes[loc].name.clone(),
                    size: attribute_size,
                },
            );
        }
        let old_slot = &self.attributes[loc];
        let slot = AttributeSlot {
            name: old_slot.name.clone(),
            attribute_type: old_slot.attribute_type,
            size: old_slot.size,
            loc: old_slot.loc,
            buffer_size: length / attribute_size,
        };
        self.attributes.set(loc, slot);
        Ok(())
    }

    /// Whether a draw call of `num_vertices` vertices agrees with every attribute
    /// buffer; the first attribute that does not is the error.
    pub fn check_draw(&self, num_vertices: usize) -> (r: Result<(), ShaderError>)
        ensures
            ({
                let i = first_wrong_length(self.attributes@, num_vertices);
                if i == self.attributes@.len() {
                    r is Ok
                } else {
                    (r matches Err(ShaderError::WrongLength { name: n, expected: e, actual: a })
                        && n@ == self.attributes@[i].name@ && e == num_vertices && a
                        == self.attributes@[i].buffer_size)
                }
            }),
    {
        let mut i: usize = 0;
        while i < self.attributes.len()
            invariant
                0 <= i <= self.attributes@.len(),
                forall|k: int|
                    0 <= k < i ==> #[trigger] self.attributes@[k].buffer_size == num_vertices
                        || self.attributes@[k].buffer_size == usize::MAX,
            decreases self.attributes@.len() - i,
        {
            let attribute = &self.attributes[i];
            if attribute.buffer_size != num_vertices && attribute.buffer_size != usize::MAX {
                proof {
                    lemma_first_wrong_length(self.attributes@, num_vertices, i as int);
                }
                return Err(
                    ShaderError::WrongLength {
                        name: attribute.name.clone(),
                        expected: num_vertices,
                        actual: attribute.buffer_size,
                    },
                );
            }
            i = i + 1;
        }
        proof {
            lemma_first_wrong_length(self.attributes@, num_vertices, i as int);
        }
        Ok(())
    }
}

} // verus!
