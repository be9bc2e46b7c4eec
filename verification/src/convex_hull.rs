//! The integer part of tracing a glyph's convex hull from its bitmap.

use vstd::prelude::*;

verus! {

/// How many rays to cast from the bitmap's centre: one per half-spacing along
/// the bitmap's width plus height.
pub fn ray_count(width: usize, height: usize, spacing: usize) -> (r: usize)
    requires
        width + height <= usize::MAX,
        spacing >= 2,
    ensures
        r == (width + height) / ((spacing / 2) as int),
{
    let half = spacing >> 1;
    assert(spacing >> 1 == spacing / 2) by (bit_vector);
    (width + height) / half
}

} // verus!
