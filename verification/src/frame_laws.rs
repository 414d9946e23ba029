//! What a frame shows, said of its list of painting steps.

use crate::paint::{cell_op, PaintOp, Ratio};
use crate::state::GridState;
use crate::universe::{UniversePoint, UniverseView};
use vstd::prelude::*;

verus! {

/// `op` fills the rectangle of the cell at `row` and `column`: the area is cut into as
/// many rectangles to the width as there are columns, and into as many to the height as
/// there are rows.
pub open spec fn fills(
    op: PaintOp,
    universe: UniverseView,
    row: int,
    column: int,
    width: i32,
    height: i32,
) -> bool {
    match op {
        PaintOp::FillCell { row: r, column: c, cell_width, cell_height } => {
            &&& r == row
            &&& c == column
            &&& cell_width.numerator == width
            &&& cell_width.denominator == universe.columns
            &&& cell_height.numerator == height
            &&& cell_height.denominator == universe.rows
        },
        _ => false,
    }
}

/// The cell at `row` and `column` of the universe is alive.
pub open spec fn is_live_place(universe: UniverseView, row: int, column: int) -> bool {
    &&& 0 <= row < universe.rows
    &&& 0 <= column < universe.columns
    &&& universe.cells[row * universe.columns + column] is Alive
}

/// Where keys grow along a sequence, they grow along its selected part.
proof fn lemma_filter_keeps_order<A>(
    s: Seq<A>,
    pred: spec_fn(A) -> bool,
    key: spec_fn(A) -> int,
)
    requires
        forall|i: int, j: int| 0 <= i < j < s.len() ==> key(#[trigger] s[i]) < key(#[trigger] s[j]),
    ensures
        forall|i: int, j: int|
            0 <= i < j < s.filter(pred).len() ==> key(#[trigger] s.filter(pred)[i]) < key(
                #[trigger] s.filter(pred)[j],
            ),
    decreases s.len(),
{
    reveal(Seq::filter);
    if s.len() > 0 {
        let rest = s.drop_last();
        let kept = rest.filter(pred);
        assert forall|i: int, j: int| 0 <= i < j < rest.len() implies key(#[trigger] rest[i]) < key(
            #[trigger] rest[j],
        ) by {
            assert(rest[i] == s[i] && rest[j] == s[j]);
        }
        lemma_filter_keeps_order(rest, pred, key);
        assert forall|i: int| 0 <= i < kept.len() implies key(#[trigger] kept[i]) < key(
            s.last(),
        ) by {
            let e = kept[i];
            assert(kept.contains(e));
            rest.lemma_filter_contains_rev(pred, e);
            let k = choose|k: int| 0 <= k < rest.len() && rest[k] == e;
            assert(s[k] == e);
        }
        assert(s.filter(pred) == if pred(s.last()) {
            kept.push(s.last())
        } else {
            kept
        });
    }
}

/// A frame can be painted if the grid is frozen or has both colors.
pub proof fn law_paintable_states(state: GridState)
    ensures
        state.renderable() <==> (state.frozen || (state.fg_color is Some && state.bg_color
            is Some)),
{
}

/// The step for a cell fills the rectangle of that cell.
pub proof fn law_step_for_a_cell(
    universe: UniverseView,
    row: usize,
    column: usize,
    width: i32,
    height: i32,
)
    requires
        universe.rows <= usize::MAX,
        universe.columns <= usize::MAX,
    ensures
        fills(
            cell_op(universe, row, column, width, height),
            universe,
            row as int,
            column as int,
            width,
            height,
        ),
        cell_op(universe, row, column, width, height) == (PaintOp::FillCell {
            row,
            column,
            cell_width: Ratio { numerator: width, denominator: universe.columns as usize },
            cell_height: Ratio { numerator: height, denominator: universe.rows as usize },
        }),
{
}

/// Whatever the mode of an unfrozen grid and whether it runs, a frame begins with the whole
/// area in the background color. Without a universe it then says that there is none. With
/// one it changes to the cell color and from there on fills rectangles alone, so that every
/// rectangle has the cell color. A frozen grid paints nothing.
pub proof fn law_cells_have_the_cell_color(state: GridState, width: i32, height: i32)
    requires
        state.wf(),
        state.frozen || (state.fg_color is Some && state.bg_color is Some),
    ensures
        ({
            let frame = state.frame(width, height);
            &&& state.frozen ==> frame.len() == 0
            &&& !state.frozen ==> {
                &&& frame.len() >= 3
                &&& frame[0] == PaintOp::SetSource(state.bg_color->0)
                &&& frame[1] == (PaintOp::FillArea { width, height })
                &&& state.universe is None ==> frame.len() == 3 && frame[2] is NoUniverse
                &&& state.universe is Some ==> {
                    &&& frame[2] == PaintOp::SetSource(state.fg_color->0)
                    &&& forall|i: int|
                        3 <= i < frame.len() ==> (#[trigger] frame[i]) is FillCell
                }
            }
        }),
{
    if !state.frozen && state.universe is Some {
        let u = state.universe->0;
        let frame = state.frame(width, height);
        let ops = u.live_ops(width, height);
        assert forall|i: int| 3 <= i < frame.len() implies (#[trigger] frame[i]) is FillCell by {
            assert(frame[i] == ops[i - 3]);
        }
    }
}

/// The rectangles of a frame are those of the live cells: each one belongs to a live cell,
/// each live cell has one, and they come in the order of the cells, row after row, so none
/// comes twice.
pub proof fn law_rectangles_are_the_live_cells(state: GridState, width: i32, height: i32)
    requires
        state.wf(),
        !state.frozen,
        state.fg_color is Some,
        state.bg_color is Some,
        state.universe is Some,
    ensures
        ({
            let u = state.universe->0;
            let frame = state.frame(width, height);
            &&& forall|i: int|
                3 <= i < frame.len() ==> {
                    &&& (#[trigger] frame[i]) is FillCell
                    &&& is_live_place(u, frame[i]->row as int, frame[i]->column as int)
                    &&& fills(
                        frame[i],
                        u,
                        frame[i]->row as int,
                        frame[i]->column as int,
                        width,
                        height,
                    )
                }
            &&& forall|row: int, column: int|
                #[trigger] is_live_place(u, row, column) ==> exists|i: int|
                    3 <= i < frame.len() && fills(
                        #[trigger] frame[i],
                        u,
                        row,
                        column,
                        width,
                        height,
                    )
            &&& forall|i: int, j: int|
                3 <= i < j < frame.len() ==> (#[trigger] frame[i])->row * u.columns
                    + frame[i]->column < (#[trigger] frame[j])->row * u.columns + frame[j]->column
        }),
{
    let u = state.universe->0;
    let frame = state.frame(width, height);
    let points = u.points();
    let alive = |p: UniversePoint| p.cell is Alive;
    let key = |p: UniversePoint| p.row * u.columns + p.column;
    let live = u.live_points();
    let ops = u.live_ops(width, height);
    assert(live == points.filter(alive));
    assert forall|i: int| 3 <= i < frame.len() implies {
        &&& #[trigger] frame[i] == cell_op(u, live[i - 3].row, live[i - 3].column, width, height)
        &&& frame[i]->row == live[i - 3].row
        &&& frame[i]->column == live[i - 3].column
        &&& is_live_place(u, frame[i]->row as int, frame[i]->column as int)
    } by {
        assert(frame[i] == ops[i - 3]);
        crate::laws::lemma_live_point(u, i - 3);
    }
    assert forall|row: int, column: int| #[trigger] is_live_place(u, row, column) implies exists|
        i: int,
    |
        3 <= i < frame.len() && fills(#[trigger] frame[i], u, row, column, width, height) by {
        let place = u.index(row, column);
        crate::universe::lemma_index_of_place(u, row, column);
        points.lemma_filter_contains(alive, place);
        let k = choose|k: int| 0 <= k < live.len() && live[k] == points[place];
        assert(frame[k + 3] == ops[k]);
        assert(fills(frame[k + 3], u, row, column, width, height));
    }
    crate::life_laws::law_points_are_the_cells_in_order(u);
    assert forall|i: int, j: int| 0 <= i < j < points.len() implies key(#[trigger] points[i])
        < key(#[trigger] points[j]) by {}
    lemma_filter_keeps_order(points, alive, key);
    assert forall|i: int, j: int| 3 <= i < j < frame.len() implies (#[trigger] frame[i])->row
        * u.columns + frame[i]->column < (#[trigger] frame[j])->row * u.columns
        + frame[j]->column by {
        assert(key(live[i - 3]) < key(live[j - 3]));
    }
}

} // verus!
