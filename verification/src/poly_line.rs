//! The discrete parts of turning a poly line into a triangle strip: line join
//! and cap styles, how many segments a curve is cut into, and how separate
//! strips are joined into one by degenerate triangles.

use vstd::prelude::*;

verus! {

#[derive(Clone, Copy, Debug, PartialEq, Eq, Structural)]
pub enum LineJoinStyle {
    Bevel,
    Round,
    Miter,
}

#[derive(Clone, Copy, Debug, PartialEq, Eq, Structural)]
pub enum LineCapStyle {
    Round,
    Rect,
    Butt,
}

/// Fewest segments a curve or arc is cut into.
pub const MIN_SEGMENTS: usize = 8;

/// Most segments a curve or arc is cut into.
pub const MAX_SEGMENTS: usize = 2048;

/// The number of segments for a curve that would take `count` segments of the
/// nominal segment length: at least `MIN_SEGMENTS`, at most `MAX_SEGMENTS`.
pub fn clamp_segments(count: usize) -> (r: usize)
    ensures
        MIN_SEGMENTS <= r <= MAX_SEGMENTS,
        MIN_SEGMENTS <= count <= MAX_SEGMENTS ==> r == count,
        count < MIN_SEGMENTS ==> r == MIN_SEGMENTS,
        count > MAX_SEGMENTS ==> r == MAX_SEGMENTS,
{
    let at_least = if count > MIN_SEGMENTS { count } else { MIN_SEGMENTS };
    if at_least < MAX_SEGMENTS { at_least } else { MAX_SEGMENTS }
}

/// The strip after `setup_move`, and the index of the gap it leaves.
pub open spec fn spec_setup_move<T>(outputs: Seq<T>, placeholder: T) -> (Seq<T>, usize) {
    if outputs.len() == 0 {
        (outputs, 0)
    } else {
        (outputs.push(outputs.last()).push(placeholder), (outputs.len() + 1) as usize)
    }
}

/// The strip after `finish_move`.
pub open spec fn spec_finish_move<T>(outputs: Seq<T>, move_idx: usize) -> Seq<T> {
    if move_idx > 0 && outputs.len() > move_idx + 1 {
        outputs.update(move_idx as int, outputs[move_idx + 1])
    } else {
        outputs
    }
}

/// Prepares to start a new strip after the vertices already output: doubles
/// the last vertex and leaves a gap, filled by `finish_move` with the first
/// vertex of the new strip. Returns the gap's index, or 0 if there is nothing
/// to join to.
pub fn setup_move<T: Copy>(outputs: &mut Vec<T>, placeholder: T) -> (r: usize)
    requires
        old(outputs)@.len() + 2 <= usize::MAX,
    ensures
        (final(outputs)@, r) == spec_setup_move(old(outputs)@, placeholder),
{
    if outputs.len() > 0 {
        let last = outputs[outputs.len() - 1];
        outputs.push(last);
        let result = outputs.len();
        outputs.push(placeholder);
        result
    } else {
        0
    }
}

/// Fills the gap left by `setup_move` with the vertex that follows it.
pub fn finish_move<T: Copy>(outputs: &mut Vec<T>, move_idx: usize)
    requires
        move_idx < usize::MAX,
    ensures
        final(outputs)@ == spec_finish_move(old(outputs)@, move_idx),
{
    if move_idx > 0 && outputs.len() > move_idx + 1 {
        let next = outputs[move_idx + 1];
        outputs.set(move_idx, next);
    }
}

/// Joining a new strip to earlier output: the earlier vertices, then the last
/// of them and the first of the new strip (the two degenerate triangles that
/// connect the strips), then the new strip.
pub proof fn lemma_move_joins_strips<T>(earlier: Seq<T>, strip: Seq<T>, placeholder: T)
    requires
        earlier.len() > 0,
        strip.len() > 0,
        earlier.len() + 2 <= usize::MAX,
    ensures
        ({
            let (with_gap, idx) = spec_setup_move(earlier, placeholder);
            spec_finish_move(with_gap + strip, idx) == earlier + seq![earlier.last(), strip[0]] + strip
        }),
{
    let (with_gap, idx) = spec_setup_move(earlier, placeholder);
    assert(spec_finish_move(with_gap + strip, idx) =~= earlier + seq![earlier.last(), strip[0]]
        + strip);
}

/// With no earlier output there is nothing to join: the new strip stands alone.
pub proof fn lemma_move_first_strip<T>(strip: Seq<T>, placeholder: T)
    ensures
        ({
            let (with_gap, idx) = spec_setup_move(Seq::<T>::empty(), placeholder);
            &&& idx == 0
            &&& spec_finish_move(with_gap + strip, idx) == strip
        }),
{
    assert(Seq::<T>::empty() + strip =~= strip);
}

} // verus!
