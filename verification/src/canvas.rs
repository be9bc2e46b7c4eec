//! The layout of the canvas speed test: a square grid of glyph instances,
//! alternating between two glyphs, and edges from the bottom node of each
//! column to every node of the previous column.

use vstd::prelude::*;

verus! {

/// For the nodes of the first `x` columns of an `n` by `n` grid, in order
/// `x * n + y`, whether each shows the first glyph (when `x + y` is odd).
pub open spec fn glyph_columns(x: int, n: int) -> Seq<bool>
    decreases x,
{
    if x <= 0 {
        Seq::empty()
    } else {
        glyph_columns(x - 1, n) + Seq::new(n as nat, |y: int| ((x - 1) + y) % 2 == 1)
    }
}

/// The edges into column `x - 1` of an `n` by `n` grid: from node `(x, 0)` to
/// each node `(x - 1, y)`, nodes numbered `x * n + y`.
pub open spec fn edge_column(x: int, n: int) -> Seq<(usize, usize)> {
    Seq::new(n as nat, |y: int| ((x * n) as usize, ((x - 1) * n + y) as usize))
}

/// The edges from columns `1 .. x` of an `n` by `n` grid.
pub open spec fn edge_columns(x: int, n: int) -> Seq<(usize, usize)>
    decreases x,
{
    if x <= 1 {
        Seq::empty()
    } else {
        edge_columns(x - 1, n) + edge_column(x - 1, n)
    }
}

/// The index of node `(x, y)` of a grid with `n` nodes per column.
pub open spec fn node_index(x: int, y: int, n: int) -> int {
    x * n + y
}

/// The speed test grid is a checkerboard: of the first `x` columns of an `n`
/// by `n` grid there are `x * n` nodes, and node `(i, y)` shows the first
/// glyph exactly when `i + y` is odd.
pub proof fn lemma_glyph_checkerboard(x: int, n: int)
    requires
        0 <= x,
        0 <= n,
    ensures
        glyph_columns(x, n).len() == x * n,
        forall|i: int, y: int|
            0 <= i < x && 0 <= y < n ==> #[trigger] glyph_columns(x, n)[node_index(i, y, n)] == ((i
                + y) % 2 == 1),
    decreases x,
{
    if x > 0 {
        lemma_glyph_checkerboard(x - 1, n);
        assert((x - 1) * n + n == x * n) by (nonlinear_arith);
        assert(glyph_columns(x, n).len() == glyph_columns(x - 1, n).len() + n);
        assert forall|i: int, y: int| 0 <= i < x && 0 <= y < n implies #[trigger] glyph_columns(
            x,
            n,
        )[node_index(i, y, n)] == ((i + y) % 2 == 1) by {
            assert(i * n + y < x * n) by (nonlinear_arith)
                requires
                    0 <= i < x,
                    0 <= y < n,
            ;
            if i < x - 1 {
                assert(i * n + y < (x - 1) * n) by (nonlinear_arith)
                    requires
                        0 <= i < x - 1,
                        0 <= y < n,
                ;
                assert(0 <= i * n + y) by (nonlinear_arith)
                    requires
                        0 <= i,
                        0 <= y,
                        0 <= n,
                ;
            }
        }
    } else {
        assert(x * n == 0) by (nonlinear_arith)
            requires
                x == 0,
        ;
    }
}

/// For each node of the speed test grid, whether it shows the first glyph.
pub fn speed_test_glyphs(xy_max: usize) -> (r: Vec<bool>)
    ensures
        r@ == glyph_columns(xy_max as int, xy_max as int),
        r@.len() == xy_max * xy_max,
        forall|x: int, y: int|
            0 <= x < xy_max && 0 <= y < xy_max ==> #[trigger] r@[node_index(x, y, xy_max as int)] == ((
            x + y) % 2 == 1),
{
    let mut result: Vec<bool> = Vec::new();
    let mut x: usize = 0;
    while x < xy_max
        invariant
            x <= xy_max,
            result@ == glyph_columns(x as int, xy_max as int),
        decreases xy_max - x,
    {
        let ghost before = result@;
        let mut y: usize = 0;
        while y < xy_max
            invariant
                x < xy_max,
                y <= xy_max,
                result@ == before + Seq::new(y as nat, |j: int| (x + j) % 2 == 1),
            decreases xy_max - y,
        {
            let odd = (x % 2 == 1) != (y % 2 == 1);
            assert(odd == ((x + y) % 2 == 1));
            result.push(odd);
            y = y + 1;
            assert(result@ =~= before + Seq::new(y as nat, |j: int| (x + j) % 2 == 1));
        }
        assert(glyph_columns(x + 1, xy_max as int) == glyph_columns(x as int, xy_max as int) + Seq::new(
            xy_max as nat,
            |j: int| (x + j) % 2 == 1,
        ));
        x = x + 1;
    }
    proof {
        lemma_glyph_checkerboard(xy_max as int, xy_max as int);
    }
    result
}

/// The edges of the speed test grid go, column by column from the second
/// one on, from the bottom node of each column to every node of the column
/// before it: the edges from the first `x` columns (`x >= 1`) are
/// `(x - 1) * n`, and edge number `(i - 1) * n + y` goes from node `(i, 0)` to
/// node `(i - 1, y)`.
pub proof fn lemma_edges_to_previous_column(x: int, n: int)
    requires
        1 <= x,
        0 <= n,
        x * n <= usize::MAX,
    ensures
        edge_columns(x, n).len() == (x - 1) * n,
        forall|i: int, y: int|
            1 <= i < x && 0 <= y < n ==> #[trigger] edge_columns(x, n)[node_index(i - 1, y, n)] == (
            node_index(i, 0, n) as usize,
            node_index(i - 1, y, n) as usize,
        ),
    decreases x,
{
    if x > 1 {
        assert((x - 1) * n <= x * n) by (nonlinear_arith)
            requires
                0 <= n,
        ;
        lemma_edges_to_previous_column(x - 1, n);
        assert((x - 2) * n + n == (x - 1) * n) by (nonlinear_arith);
        assert(edge_columns(x, n).len() == edge_columns(x - 1, n).len() + n);
        assert forall|i: int, y: int| 1 <= i < x && 0 <= y < n implies #[trigger] edge_columns(
            x,
            n,
        )[node_index(i - 1, y, n)] == (node_index(i, 0, n) as usize, node_index(i - 1, y, n) as usize) by {
            assert((i - 1) * n + y < (x - 1) * n) by (nonlinear_arith)
                requires
                    1 <= i < x,
                    0 <= y < n,
            ;
            assert(0 <= (i - 1) * n + y) by (nonlinear_arith)
                requires
                    1 <= i,
                    0 <= y,
                    0 <= n,
            ;
            if i < x - 1 {
                assert((i - 1) * n + y < (x - 2) * n) by (nonlinear_arith)
                    requires
                        1 <= i < x - 1,
                        0 <= y < n,
                ;
            }
        }
    } else {
        assert((x - 1) * n == 0) by (nonlinear_arith)
            requires
                x == 1,
        ;
    }
}

/// The edges of the speed test grid, as pairs of node indices.
pub fn speed_test_edges(xy_max: usize) -> (r: Vec<(usize, usize)>)
    requires
        xy_max * xy_max <= usize::MAX,
    ensures
        r@ == edge_columns(xy_max as int, xy_max as int),
        xy_max == 0 ==> r@.len() == 0,
        xy_max >= 1 ==> r@.len() == (xy_max - 1) * xy_max,
        forall|x: int, y: int|
            1 <= x < xy_max && 0 <= y < xy_max ==> #[trigger] r@[node_index(x - 1, y, xy_max as int)] == (
            node_index(x, 0, xy_max as int) as usize,
            node_index(x - 1, y, xy_max as int) as usize,
        ),
{
    let mut result: Vec<(usize, usize)> = Vec::new();
    let y_max = xy_max;
    let mut x: usize = 1;
    while x < xy_max
        invariant
            1 <= x,
            x <= xy_max || (xy_max == 0 && x == 1),
            y_max == xy_max,
            xy_max * xy_max <= usize::MAX,
            result@ == edge_columns(x as int, xy_max as int),
        decreases xy_max - x,
    {
        proof {
            assert(x * xy_max <= xy_max * xy_max) by (nonlinear_arith)
                requires
                    x < xy_max,
            ;
            assert((x - 1) * xy_max + xy_max == x * xy_max) by (nonlinear_arith);
        }
        let ghost before = result@;
        let mut y: usize = 0;
        while y < y_max
            invariant
                1 <= x < xy_max,
                y <= xy_max,
                y_max == xy_max,
                x * xy_max <= usize::MAX,
                (x - 1) * xy_max + xy_max == x * xy_max,
                result@ == before + edge_column(x as int, xy_max as int).take(y as int),
            decreases xy_max - y,
        {
            let source = x * y_max;
            let target = (x - 1) * y_max + y;
            result.push((source, target));
            y = y + 1;
            assert(result@ =~= before + edge_column(x as int, xy_max as int).take(y as int));
        }
        assert(edge_column(x as int, xy_max as int).take(xy_max as int) =~= edge_column(
            x as int,
            xy_max as int,
        ));
        x = x + 1;
    }
    proof {
        if xy_max == 0 {
            assert(edge_columns(x as int, 0) == Seq::<(usize, usize)>::empty());
        } else {
            assert(x == xy_max);
            lemma_edges_to_previous_column(xy_max as int, xy_max as int);
        }
    }
    result
}

} // verus!
