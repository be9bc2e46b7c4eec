//! Half-open ranges of buffer indices that need to be re-uploaded.

use vstd::prelude::*;
use core::ops::{Range, RangeFrom, RangeFull, RangeTo, RangeToInclusive};

verus! {

/// A half-open range `min .. max` of buffer indices. The canonical empty range
/// has `min == usize::MAX` and `max == 0`, so that including anything into it
/// yields exactly what was included.
#[derive(Copy, Clone, Debug)]
pub struct MemoryRange {
    pub min: usize,
    pub max: usize,
}

/// The indices covered by a range with the given bounds.
pub open spec fn span(min: int, max: int) -> Set<int> {
    Set::new(|i: int| min <= i < max)
}

impl MemoryRange {
    /// The indices the range covers.
    pub open spec fn indices(self) -> Set<int> {
        span(self.min as int, self.max as int)
    }

    /// The canonical empty range.
    pub open spec fn spec_empty() -> MemoryRange {
        MemoryRange { min: usize::MAX, max: 0 }
    }

    /// What `new` builds from two bounds.
    pub open spec fn spec_new(min: usize, max: usize) -> MemoryRange {
        if max <= min {
            MemoryRange::spec_empty()
        } else {
            MemoryRange { min, max }
        }
    }

    /// Whether a range counts as empty (its upper bound lies below its lower bound).
    pub open spec fn spec_is_empty(self) -> bool {
        self.max < self.min
    }

    /// The range after including index `x`.
    pub open spec fn spec_include_int(self, x: usize) -> MemoryRange {
        MemoryRange {
            min: if x < self.min { x } else { self.min },
            max: if x + 1 > self.max { (x + 1) as usize } else { self.max },
        }
    }

    /// The range after including another range.
    pub open spec fn spec_include_range(self, other: MemoryRange) -> MemoryRange {
        MemoryRange {
            min: if other.min < self.min { other.min } else { self.min },
            max: if other.max > self.max { other.max } else { self.max },
        }
    }

    pub fn empty() -> (r: Self)
        ensures
            r == Self::spec_empty(),
    {
        Self { min: usize::MAX, max: 0 }
    }

    pub fn new(min: usize, max: usize) -> (r: Self)
        ensures
            r == Self::spec_new(min, max),
    {
        if max <= min {
            Self::empty()
        } else {
            Self { min, max }
        }
    }

    pub fn is_empty(&mut self) -> (b: bool)
        ensures
            b == old(self).spec_is_empty(),
            *final(self) == *old(self),
    {
        self.max < self.min
    }

    pub fn set_empty(&mut self)
        ensures
            *final(self) == Self::spec_empty(),
    {
        self.max = 0;
        self.min = usize::MAX;
    }

    pub fn include_int(&mut self, x: usize)
        requires
            x < usize::MAX,
        ensures
            *final(self) == old(self).spec_include_int(x),
    {
        self.min = if x < self.min { x } else { self.min };
        self.max = if x + 1 > self.max { x + 1 } else { self.max };
    }

    pub fn include_range(&mut self, other: MemoryRange)
        ensures
            *final(self) == old(self).spec_include_range(other),
    {
        self.min = if other.min < self.min { other.min } else { self.min };
        self.max = if other.max > self.max { other.max } else { self.max };
    }
}

/// A range built from two bounds is empty exactly when the upper bound does not
/// exceed the lower one, and it covers exactly the indices between the bounds.
pub proof fn lemma_new_empty_iff(min: usize, max: usize)
    ensures
        MemoryRange::spec_new(min, max).spec_is_empty() <==> max <= min,
        MemoryRange::spec_new(min, max).indices() == span(min as int, max as int),
{
    assert(MemoryRange::spec_new(min, max).indices() =~= span(min as int, max as int));
}

/// The canonical empty range is empty and covers no index.
pub proof fn lemma_empty_is_empty()
    ensures
        MemoryRange::spec_empty().spec_is_empty(),
        MemoryRange::spec_empty().indices() == Set::<int>::empty(),
{
    assert(MemoryRange::spec_empty().indices() =~= Set::<int>::empty());
}

/// After including `x`, the range covers `x` and everything it covered before.
pub proof fn lemma_include_int_covers(r: MemoryRange, x: usize)
    requires
        x < usize::MAX,
    ensures
        r.spec_include_int(x).indices().contains(x as int),
        r.indices().subset_of(r.spec_include_int(x).indices()),
{
}

/// Including `x` into the empty range gives exactly the one-index range of `x`.
pub proof fn lemma_include_int_into_empty(x: usize)
    requires
        x < usize::MAX,
    ensures
        MemoryRange::spec_empty().spec_include_int(x) == MemoryRange::spec_new(x, (x + 1) as usize),
        MemoryRange::spec_empty().spec_include_int(x).indices() == set![x as int],
{
    assert(MemoryRange::spec_empty().spec_include_int(x).indices() =~= set![x as int]);
}

/// Including an index is including its one-index range.
pub proof fn lemma_include_int_is_include_range(r: MemoryRange, x: usize)
    requires
        x < usize::MAX,
    ensures
        r.spec_include_int(x) == r.spec_include_range(MemoryRange::spec_new(x, (x + 1) as usize)),
{
}

/// After including another range, the range covers everything either covered.
pub proof fn lemma_include_range_covers(r: MemoryRange, other: MemoryRange)
    ensures
        r.indices().subset_of(r.spec_include_range(other).indices()),
        other.indices().subset_of(r.spec_include_range(other).indices()),
{
}

/// The empty range is a neutral element of `include_range`, on either side.
pub proof fn lemma_include_range_empty_neutral(r: MemoryRange)
    ensures
        r.spec_include_range(MemoryRange::spec_empty()) == r,
        MemoryRange::spec_empty().spec_include_range(r) == r,
{
}

/// `include_range` is commutative, associative and idempotent.
pub proof fn lemma_include_range_algebra(a: MemoryRange, b: MemoryRange, c: MemoryRange)
    ensures
        a.spec_include_range(b) == b.spec_include_range(a),
        a.spec_include_range(b).spec_include_range(c) == a.spec_include_range(b.spec_include_range(c)),
        a.spec_include_range(a) == a,
{
}

/// The upper bound of an inclusive range, one past `end`: `end + 1`, which wraps
/// to 0 at `usize::MAX` as unchecked addition does in a release build.
pub open spec fn past(end: usize) -> usize {
    if end == usize::MAX { 0 } else { (end + 1) as usize }
}

fn past_exec(end: usize) -> (r: usize)
    ensures
        r == past(end),
{
    end.wrapping_add(1)
}

impl From<usize> for MemoryRange {
    fn from(a: usize) -> (r: Self) {
        Self::new(a, past_exec(a))
    }
}

impl vstd::std_specs::convert::FromSpecImpl<usize> for MemoryRange {
    open spec fn obeys_from_spec() -> bool {
        true
    }

    open spec fn from_spec(a: usize) -> MemoryRange {
        MemoryRange::spec_new(a, past(a))
    }
}

impl From<Range<usize>> for MemoryRange {
    fn from(a: Range<usize>) -> (r: Self) {
        Self::new(a.start, past_exec(a.end))
    }
}

impl vstd::std_specs::convert::FromSpecImpl<Range<usize>> for MemoryRange {
    open spec fn obeys_from_spec() -> bool {
        true
    }

    open spec fn from_spec(a: Range<usize>) -> MemoryRange {
        MemoryRange::spec_new(a.start, past(a.end))
    }
}

/// std's `RangeFrom` (`start..`), declared with its one public field `start`
/// visible, so that the bound can be read; nothing else is assumed of it.
#[verifier::external_type_specification]
#[verifier::reject_recursive_types(Idx)]
pub struct ExRangeFrom<Idx>(RangeFrom<Idx>);

/// std's `RangeFull` (`..`), a type without fields, declared opaque so that it
/// can be taken as an argument; nothing is assumed of it.
#[verifier::external_type_specification]
#[verifier::external_body]
pub struct ExRangeFull(RangeFull);

/// std's `RangeTo` (`..end`), declared with its one public field `end` visible,
/// so that the bound can be read; nothing else is assumed of it.
#[verifier::external_type_specification]
#[verifier::reject_recursive_types(Idx)]
pub struct ExRangeTo<Idx>(RangeTo<Idx>);

/// std's `RangeToInclusive` (`..=end`), declared with its one public field `end`
/// visible, so that the bound can be read; nothing else is assumed of it.
#[verifier::external_type_specification]
#[verifier::reject_recursive_types(Idx)]
pub struct ExRangeToInclusive<Idx>(RangeToInclusive<Idx>);

impl From<RangeFrom<usize>> for MemoryRange {
    fn from(a: RangeFrom<usize>) -> (r: Self) {
        Self::new(a.start, usize::MAX)
    }
}

impl vstd::std_specs::convert::FromSpecImpl<RangeFrom<usize>> for MemoryRange {
    open spec fn obeys_from_spec() -> bool {
        true
    }

    open spec fn from_spec(a: RangeFrom<usize>) -> MemoryRange {
        MemoryRange::spec_new(a.start, usize::MAX)
    }
}

impl From<RangeFull> for MemoryRange {
    fn from(_a: RangeFull) -> (r: Self) {
        Self::new(0, usize::MAX)
    }
}

impl vstd::std_specs::convert::FromSpecImpl<RangeFull> for MemoryRange {
    open spec fn obeys_from_spec() -> bool {
        true
    }

    open spec fn from_spec(a: RangeFull) -> MemoryRange {
        MemoryRange::spec_new(0, usize::MAX)
    }
}

impl From<RangeTo<usize>> for MemoryRange {
    fn from(a: RangeTo<usize>) -> (r: Self) {
        Self::new(0, a.end)
    }
}

impl vstd::std_specs::convert::FromSpecImpl<RangeTo<usize>> for MemoryRange {
    open spec fn obeys_from_spec() -> bool {
        true
    }

    open spec fn from_spec(a: RangeTo<usize>) -> MemoryRange {
        MemoryRange::spec_new(0, a.end)
    }
}

impl From<RangeToInclusive<usize>> for MemoryRange {
    fn from(a: RangeToInclusive<usize>) -> (r: Self) {
        Self::new(0, past_exec(a.end))
    }
}

impl vstd::std_specs::convert::FromSpecImpl<RangeToInclusive<usize>> for MemoryRange {
    open spec fn obeys_from_spec() -> bool {
        true
    }

    open spec fn from_spec(a: RangeToInclusive<usize>) -> MemoryRange {
        MemoryRange::spec_new(0, past(a.end))
    }
}

} // verus!
