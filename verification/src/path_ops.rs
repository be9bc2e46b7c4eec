//! Conversion between the two path encodings a glyph passes through: the
//! rasterizer's operations, where each segment names only where it ends, and
//! the tessellator's events, where each segment names where it starts too.
//! Points are carried through unchanged, whatever their type.

use vstd::prelude::*;

verus! {

/// A path operation of the rasterizer.
#[derive(Copy, Clone, Debug, PartialEq, Eq)]
pub enum PathOp<P> {
    Close,
    Move(P),
    Line(P),
    Quad(P, P),
    Cubic(P, P, P),
    /// A change of pen width, which carries no point.
    PenWidth,
}

/// A path event of the tessellator.
#[derive(Copy, Clone, Debug, PartialEq, Eq)]
pub enum PathEvent<P> {
    Begin { at: P },
    Line { from: P, to: P },
    Quadratic { from: P, ctrl: P, to: P },
    Cubic { from: P, ctrl1: P, ctrl2: P, to: P },
    End { last: P, first: P, close: bool },
}

/// Where a path is after some operations: the first point of the current
/// sub-path and the current point.
pub open spec fn op_state<P>(ops: Seq<PathOp<P>>, origin: P) -> (P, P)
    decreases ops.len(),
{
    if ops.len() == 0 {
        (origin, origin)
    } else {
        let (first, from) = op_state(ops.drop_last(), origin);
        match ops.last() {
            PathOp::Move(to) => (to, to),
            PathOp::Line(to) => (first, to),
            PathOp::Quad(_, to) => (first, to),
            PathOp::Cubic(_, _, to) => (first, to),
            _ => (first, from),
        }
    }
}

/// The event an operation becomes, at the given first and current points.
pub open spec fn op_event<P>(op: PathOp<P>, first: P, from: P) -> PathEvent<P> {
    match op {
        PathOp::Close => PathEvent::End { last: from, first, close: true },
        PathOp::Move(to) => PathEvent::Begin { at: to },
        PathOp::Line(to) => PathEvent::Line { from, to },
        PathOp::Quad(ctrl, to) => PathEvent::Quadratic { from, ctrl, to },
        PathOp::Cubic(ctrl1, ctrl2, to) => PathEvent::Cubic { from, ctrl1, ctrl2, to },
        // Excluded by `no_pen_width`; any event would do.
        PathOp::PenWidth => PathEvent::Begin { at: from },
    }
}

/// Whether no operation changes the pen width.
pub open spec fn no_pen_width<P>(ops: Seq<PathOp<P>>) -> bool {
    forall|i: int| 0 <= i < ops.len() ==> !(#[trigger] ops[i] is PenWidth)
}

/// The events of a sequence of operations, the path starting at `origin`.
pub open spec fn ops_to_events<P>(ops: Seq<PathOp<P>>, origin: P) -> Seq<PathEvent<P>> {
    Seq::new(
        ops.len(),
        |i: int| op_event(ops[i], op_state(ops.take(i), origin).0, op_state(ops.take(i), origin).1),
    )
}

/// The operation an event becomes, if any: an end that does not close the
/// sub-path becomes none.
pub open spec fn event_op<P>(e: PathEvent<P>) -> Option<PathOp<P>> {
    match e {
        PathEvent::End { close, .. } => if close {
            Some(PathOp::Close)
        } else {
            None
        },
        PathEvent::Begin { at } => Some(PathOp::Move(at)),
        PathEvent::Line { to, .. } => Some(PathOp::Line(to)),
        PathEvent::Quadratic { ctrl, to, .. } => Some(PathOp::Quad(ctrl, to)),
        PathEvent::Cubic { ctrl1, ctrl2, to, .. } => Some(PathOp::Cubic(ctrl1, ctrl2, to)),
    }
}

/// The operations of a sequence of events.
pub open spec fn events_to_ops<P>(events: Seq<PathEvent<P>>) -> Seq<PathOp<P>>
    decreases events.len(),
{
    if events.len() == 0 {
        Seq::empty()
    } else {
        let rest = events_to_ops(events.drop_last());
        match event_op(events.last()) {
            Some(op) => rest.push(op),
            None => rest,
        }
    }
}

/// The events of a rasterizer path; the path starts at `origin`.
pub fn footile_path_to_lyon_path<P: Copy>(path: &[PathOp<P>], origin: P) -> (r: Vec<PathEvent<P>>)
    requires
        no_pen_width(path@),
    ensures
        r@ == ops_to_events(path@, origin),
{
    let mut first = origin;
    let mut from = origin;
    let mut result: Vec<PathEvent<P>> = Vec::new();
    let mut i: usize = 0;
    while i < path.len()
        invariant
            0 <= i <= path@.len(),
            no_pen_width(path@),
            (first, from) == op_state(path@.take(i as int), origin),
            result@.len() == i,
            forall|k: int|
                0 <= k < i ==> #[trigger] result@[k] == op_event(
                    path@[k],
                    op_state(path@.take(k), origin).0,
                    op_state(path@.take(k), origin).1,
                ),
        decreases path@.len() - i,
    {
        let op = path[i];
        assert(!(path@[i as int] is PenWidth));
        let event = match op {
            PathOp::Close => PathEvent::End { last: from, first, close: true },
            PathOp::Move(to) => {
                let e = PathEvent::Begin { at: to };
                first = to;
                from = to;
                e
            },
            PathOp::Line(to) => {
                let e = PathEvent::Line { from, to };
                from = to;
                e
            },
            PathOp::Quad(ctrl, to) => {
                let e = PathEvent::Quadratic { from, ctrl, to };
                from = to;
                e
            },
            PathOp::Cubic(ctrl1, ctrl2, to) => {
                let e = PathEvent::Cubic { from, ctrl1, ctrl2, to };
                from = to;
                e
            },
            PathOp::PenWidth => {
                proof {
                    assert(false);
                }
                PathEvent::Begin { at: from }
            },
        };
        proof {
            assert(path@.take(i + 1).drop_last() =~= path@.take(i as int));
        }
        result.push(event);
        i = i + 1;
    }
    assert(result@ =~= ops_to_events(path@, origin));
    result
}

/// The operations of a tessellator path.
pub fn lyon_path_to_footile_path<P: Copy>(path: &[PathEvent<P>]) -> (r: Vec<PathOp<P>>)
    ensures
        r@ == events_to_ops(path@),
{
    let mut result: Vec<PathOp<P>> = Vec::new();
    let mut i: usize = 0;
    while i < path.len()
        invariant
            0 <= i <= path@.len(),
            result@ == events_to_ops(path@.take(i as int)),
        decreases path@.len() - i,
    {
        proof {
            assert(path@.take(i + 1).drop_last() =~= path@.take(i as int));
        }
        match path[i] {
            PathEvent::End { close, .. } => {
                if close {
                    result.push(PathOp::Close);
                }
            },
            PathEvent::Begin { at } => result.push(PathOp::Move(at)),
            PathEvent::Line { to, .. } => result.push(PathOp::Line(to)),
            PathEvent::Quadratic { ctrl, to, .. } => result.push(PathOp::Quad(ctrl, to)),
            PathEvent::Cubic { ctrl1, ctrl2, to, .. } => result.push(PathOp::Cubic(ctrl1, ctrl2, to)),
        }
        i = i + 1;
    }
    assert(path@.take(path@.len() as int) =~= path@);
    result
}

/// Whether no operation at an index in `lo .. hi` starts a sub-path.
pub open spec fn no_move_between<P>(ops: Seq<PathOp<P>>, lo: int, hi: int) -> bool {
    forall|k: int| lo <= k < hi ==> !(#[trigger] ops[k] is Move)
}

/// The first point of a sub-path is where its latest `Move` went: after the
/// operations before index `i`, where `ops[j]` is the last `Move` among them,
/// the sub-path starts at that `Move`'s point; with no `Move` among them, it
/// starts at the origin.
pub proof fn lemma_first_is_latest_move<P>(ops: Seq<PathOp<P>>, origin: P, i: int)
    requires
        0 <= i <= ops.len(),
    ensures
        no_move_between(ops, 0, i) ==> op_state(ops.take(i), origin).0 == origin,
        forall|j: int|
            0 <= j < i && #[trigger] ops[j] is Move && no_move_between(ops, j + 1, i) ==> op_state(
                ops.take(i),
                origin,
            ).0 == ops[j]->Move_0,
    decreases i,
{
    if i > 0 {
        lemma_first_is_latest_move(ops, origin, i - 1);
        assert(ops.take(i).drop_last() =~= ops.take(i - 1));
        assert(ops.take(i).last() == ops[i - 1]);
    }
}

/// Every `Close` becomes an end event that goes back to the point of the
/// latest `Move` before it (the origin if there is none) and closes the
/// sub-path.
pub proof fn lemma_close_ends_at_latest_move<P>(ops: Seq<PathOp<P>>, origin: P, i: int)
    requires
        0 <= i < ops.len(),
        ops[i] is Close,
    ensures
        ops_to_events(ops, origin)[i] is End,
        ops_to_events(ops, origin)[i]->End_close,
        no_move_between(ops, 0, i) ==> ops_to_events(ops, origin)[i]->End_first == origin,
        forall|j: int|
            0 <= j < i && #[trigger] ops[j] is Move && no_move_between(ops, j + 1, i)
                ==> ops_to_events(ops, origin)[i]->End_first == ops[j]->Move_0,
{
    lemma_first_is_latest_move(ops, origin, i);
}

/// The point an operation ends at, if it carries one.
pub open spec fn op_end<P>(op: PathOp<P>) -> Option<P> {
    match op {
        PathOp::Move(to) => Some(to),
        PathOp::Line(to) => Some(to),
        PathOp::Quad(_, to) => Some(to),
        PathOp::Cubic(_, _, to) => Some(to),
        _ => None,
    }
}

/// Whether no operation at an index in `lo .. hi` carries a point.
pub open spec fn no_point_between<P>(ops: Seq<PathOp<P>>, lo: int, hi: int) -> bool {
    forall|k: int| lo <= k < hi ==> #[trigger] op_end(ops[k]) is None
}

/// The current point is where the latest operation that carries a point
/// ended: after the operations before index `i`, where `ops[j]` is the last
/// of them that carries a point, the path stands at that point; with none
/// among them, it stands at the origin.
pub proof fn lemma_current_is_latest_point<P>(ops: Seq<PathOp<P>>, origin: P, i: int)
    requires
        0 <= i <= ops.len(),
    ensures
        no_point_between(ops, 0, i) ==> op_state(ops.take(i), origin).1 == origin,
        forall|j: int|
            0 <= j < i && #[trigger] op_end(ops[j]) is Some && no_point_between(ops, j + 1, i)
                ==> op_state(ops.take(i), origin).1 == op_end(ops[j])->Some_0,
    decreases i,
{
    if i > 0 {
        lemma_current_is_latest_point(ops, origin, i - 1);
        assert(ops.take(i).drop_last() =~= ops.take(i - 1));
        assert(ops.take(i).last() == ops[i - 1]);
        let last_end = op_end(ops[i - 1]);
        if no_point_between(ops, 0, i) {
            assert(last_end is None);
        }
        assert forall|j: int|
            0 <= j < i && #[trigger] op_end(ops[j]) is Some && no_point_between(ops, j + 1, i)
                implies op_state(ops.take(i), origin).1 == op_end(ops[j])->Some_0 by {
            if j < i - 1 {
                assert(last_end is None);
            }
        }
    }
}

/// Every segment starts, and every `Close` ends its sub-path, where the
/// latest operation that carries a point ended (the origin if none did): an
/// event's `from` (`last` for an end) is that point.
pub proof fn lemma_segments_start_at_latest_point<P>(ops: Seq<PathOp<P>>, origin: P, i: int, j: int)
    requires
        0 <= j < i < ops.len(),
        op_end(ops[j]) is Some,
        no_point_between(ops, j + 1, i),
    ensures
        ({
            let e = ops_to_events(ops, origin)[i];
            let p = op_end(ops[j])->Some_0;
            &&& ops[i] is Close ==> e == PathEvent::End { last: p, first: e->End_first, close: true }
            &&& ops[i] is Line ==> e == PathEvent::Line { from: p, to: ops[i]->Line_0 }
            &&& ops[i] is Quad ==> e == PathEvent::Quadratic {
                from: p,
                ctrl: ops[i]->Quad_0,
                to: ops[i]->Quad_1,
            }
            &&& ops[i] is Cubic ==> e == PathEvent::Cubic {
                from: p,
                ctrl1: ops[i]->Cubic_0,
                ctrl2: ops[i]->Cubic_1,
                to: ops[i]->Cubic_2,
            }
        }),
{
    lemma_current_is_latest_point(ops, origin, i);
}

/// Every rasterizer path comes back unchanged from the tessellator's encoding.
pub proof fn lemma_round_trip<P>(ops: Seq<PathOp<P>>, origin: P)
    requires
        no_pen_width(ops),
    ensures
        events_to_ops(ops_to_events(ops, origin)) == ops,
    decreases ops.len(),
{
    if ops.len() > 0 {
        let init = ops.drop_last();
        assert forall|i: int| 0 <= i < init.len() implies !(#[trigger] init[i] is PenWidth) by {
            assert(init[i] == ops[i]);
        }
        lemma_round_trip(init, origin);
        let ev = ops_to_events(ops, origin);
        assert(ev.drop_last() =~= ops_to_events(init, origin)) by {
            assert forall|i: int| 0 <= i < init.len() implies ev.drop_last()[i] == ops_to_events(
                init,
                origin,
            )[i] by {
                assert(ops.take(i) =~= init.take(i));
            }
        }
        assert(!(ops[ops.len() - 1] is PenWidth));
        assert(events_to_ops(ev) =~= ops);
    }
}

} // verus!
