//! What holds of a grid across its operations.

use crate::cell::UniverseCell;
use crate::effect::GridEffect;
use crate::geometry::{on_axis, part_at, DrawingArea};
use crate::paint::{cell_op, PaintOp};
use crate::pointer::{AreaEvent, DragPosition, PointerButton};
use crate::property::{GridProperty, PropertyValue};
use crate::request::RequestView;
use crate::state::{GridState, UniverseGridInteractionState, UniverseGridMode, DEFAULT_SIDE};
use crate::ticker::{TickerActionView, TickerEvent};
use crate::universe::{lemma_index_of_place, lemma_place_of_index, UniversePoint, UniverseView};
use vstd::arithmetic::div_mod::{
    lemma_div_pos_is_pos, lemma_fundamental_div_mod, lemma_fundamental_div_mod_converse,
    lemma_multiply_divide_lt,
};
use vstd::prelude::*;

verus! {

impl UniverseView {
    /// The rectangle that is painted for the cell at `row` and `column` covers the
    /// pixel `x`, `y` of the area. What is painted past the right or the bottom edge
    /// is not on the area.
    pub open spec fn covers(
        self,
        area: DrawingArea,
        row: int,
        column: int,
        x: i32,
        y: i32,
    ) -> bool {
        &&& row * area.width <= x * self.columns < (row + 1) * area.width
        &&& column * area.height <= y * self.rows < (column + 1) * area.height
        &&& x < area.width
        &&& y < area.height
    }

    /// The universe `n` generations later.
    pub open spec fn generation(self, n: nat) -> UniverseView
        decreases n,
    {
        if n == 0 {
            self
        } else {
            self.generation((n - 1) as nat).next_generation()
        }
    }

    /// The two universes agree on the cell at `row` and `column` and on the cells
    /// that touch it.
    pub open spec fn agrees_around(self, other: UniverseView, row: int, column: int) -> bool {
        forall|r: int, c: int|
            row - 1 <= r <= row + 1 && column - 1 <= c <= column + 1 ==> self.lives(r, c)
                == other.lives(r, c)
    }
}

impl GridState {
    /// The state after the first `n` requests of a ticker that started from `start`.
    pub open spec fn after_ticks(self, start: UniverseView, n: nat) -> GridState
        decreases n,
    {
        if n == 0 {
            self
        } else {
            self.after_ticks(start, (n - 1) as nat).after_request(
                RequestView::Redraw(Some(start.generation(n))),
            )
        }
    }
}

/// Replacing one cell changes that cell and no other.
pub proof fn law_one_cell_changes(
    universe: UniverseView,
    row: int,
    column: int,
    value: UniverseCell,
)
    requires
        universe.wf(),
        universe.holds(row, column),
    ensures
        universe.with_cell(row, column, value).wf(),
        universe.with_cell(row, column, value).at(row, column) == value,
        forall|r: int, c: int|
            universe.holds(r, c) && !(r == row && c == column) ==> #[trigger] universe.with_cell(
                row,
                column,
                value,
            ).at(r, c) == universe.at(r, c),
{
    lemma_index_of_place(universe, row, column);
    let after = universe.with_cell(row, column, value);
    assert forall|r: int, c: int|
        universe.holds(r, c) && !(r == row && c == column) implies #[trigger] after.at(r, c)
        == universe.at(r, c) by {
        lemma_index_of_place(universe, r, c);
    }
}

/// After an edit at a pixel, the cell under the pixel has the given value, or the
/// opposite of what it had when no value was given. All other cells, the size of
/// the universe and the rest of the state are as before.
pub proof fn law_alter_edits_one_cell(
    state: GridState,
    area: DrawingArea,
    x: i32,
    y: i32,
    value: Option<UniverseCell>,
)
    requires
        state.wf(),
        state.universe is Some,
        state.alterable(area, x, y),
    ensures
        ({
            let before = state.universe->0;
            let row = before.row_under(area, x, y);
            let column = before.column_under(area, x, y);
            let after = state.altered(area, x, y, value).universe->0;
            &&& state.altered(area, x, y, value).wf()
            &&& state.altered(area, x, y, value) == state.with_universe(after)
            &&& after.rows == before.rows
            &&& after.columns == before.columns
            &&& after.at(row, column) == match value {
                Some(v) => v,
                None => before.at(row, column).opposite(),
            }
            &&& forall|r: int, c: int|
                before.holds(r, c) && !(r == row && c == column) ==> #[trigger] after.at(r, c)
                    == before.at(r, c)
        }),
{
    let before = state.universe->0;
    let row = before.row_under(area, x, y);
    let column = before.column_under(area, x, y);
    let next = match value {
        Some(v) => v,
        None => before.at(row, column).opposite(),
    };
    law_one_cell_changes(before, row, column, next);
}

/// Without a universe an edit changes nothing.
pub proof fn law_alter_needs_a_universe(
    state: GridState,
    area: DrawingArea,
    x: i32,
    y: i32,
    value: Option<UniverseCell>,
)
    requires
        state.universe is None,
    ensures
        state.altered(area, x, y, value) == state,
        state.alter_effects() == Seq::<GridEffect>::empty(),
{
}

/// Inverting the cell under a pixel twice gives the first state back.
pub proof fn law_inverting_twice_restores(state: GridState, area: DrawingArea, x: i32, y: i32)
    requires
        state.wf(),
        state.alterable(area, x, y),
    ensures
        state.altered(area, x, y, None).altered(area, x, y, None) == state,
{
    if let Some(u) = state.universe {
        let row = u.row_under(area, x, y);
        let column = u.column_under(area, x, y);
        lemma_index_of_place(u, row, column);
        let once = u.with_cell(row, column, u.at(row, column).opposite());
        let twice = once.with_cell(row, column, once.at(row, column).opposite());
        assert(twice.cells =~= u.cells);
        assert(twice == u);
    }
}

/// Of two edits at one pixel that give a value, the last one counts.
pub proof fn law_last_paint_wins(
    state: GridState,
    area: DrawingArea,
    x: i32,
    y: i32,
    first: Option<UniverseCell>,
    last: UniverseCell,
)
    requires
        state.wf(),
        state.alterable(area, x, y),
    ensures
        state.altered(area, x, y, first).altered(area, x, y, Some(last)) == state.altered(
            area,
            x,
            y,
            Some(last),
        ),
{
    if let Some(u) = state.universe {
        let row = u.row_under(area, x, y);
        let column = u.column_under(area, x, y);
        lemma_index_of_place(u, row, column);
        let through = state.altered(area, x, y, first).altered(area, x, y, Some(last));
        let straight = state.altered(area, x, y, Some(last));
        assert(through.universe->0.cells =~= straight.universe->0.cells);
    }
}

/// While a grid is running its mode is fixed; otherwise it becomes what was asked
/// for. Nothing else changes in either case.
pub proof fn law_mode_is_fixed_while_running(state: GridState, value: UniverseGridMode)
    ensures
        state.running ==> state.with_mode(value) == state,
        !state.running ==> state.with_mode(value).mode == value,
        state.with_mode(value) == (GridState { mode: state.with_mode(value).mode, ..state }),
{
}

/// A press edits nothing while the grid is running.
pub proof fn law_clicks_are_ignored_while_running(
    state: GridState,
    area: DrawingArea,
    x: i32,
    y: i32,
    value: Option<UniverseCell>,
)
    requires
        state.wf(),
        state.running,
    ensures
        state.clicked(area, x, y, value) == state,
        state.click_effects() == Seq::<GridEffect>::empty(),
{
}

/// Starting makes a grid run in run mode, stopping makes it not run, and neither
/// touches anything else.
pub proof fn law_start_and_stop(state: GridState)
    requires
        state.wf(),
    ensures
        state.started() == (GridState { running: true, mode: UniverseGridMode::Run, ..state }),
        state.stopped() == (GridState { running: false, ..state }),
        state.started().wf(),
        state.stopped().wf(),
{
}

/// Toggling always flips whether the grid runs, and toggling twice restores
/// everything but the mode, which is then run mode.
pub proof fn law_toggle_flips(state: GridState)
    requires
        state.wf(),
    ensures
        state.toggled().running == !state.running,
        state.toggled().toggled() == (GridState { mode: UniverseGridMode::Run, ..state }),
{
}

/// A stopped grid can be put into any mode again.
pub proof fn law_mode_is_free_after_stop(state: GridState, value: UniverseGridMode)
    ensures
        state.stopped().with_mode(value) == (GridState { running: false, mode: value, ..state }),
{
}

/// A press in design mode begins an interaction; any release ends it. Outside an
/// interaction a drag changes nothing and asks for nothing.
pub proof fn law_drags_need_an_interaction(
    state: GridState,
    area: DrawingArea,
    x: i32,
    y: i32,
    value: Option<UniverseCell>,
    start: Option<(i32, i32)>,
    position: DragPosition,
)
    ensures
        state.mode is Design ==> state.clicked(area, x, y, value).interaction is Ongoing,
        !(state.mode is Design) ==> state.clicked(area, x, y, value) == state,
        state.released().interaction is Idle,
        state.interaction is Idle ==> {
            &&& state.drag_began(area, start, value) == state
            &&& state.dragged(area, position, value) == state
            &&& state.drag_begin_effects(start) == Seq::<GridEffect>::empty()
            &&& state.drag_effects(position) == Seq::<GridEffect>::empty()
        },
{
}

/// Whatever happens to the drawing area, the state stays well formed, the mode, the
/// colors and whether the grid runs stay as they were, and the universe keeps its
/// size.
pub proof fn law_events_keep_size_and_mode(state: GridState, area: DrawingArea, event: AreaEvent)
    requires
        state.wf(),
        state.accepts(area, event),
    ensures
        ({
            let after = state.after_event(area, event);
            &&& after.wf()
            &&& after.mode == state.mode
            &&& after.running == state.running
            &&& after.allow_draw_on_resize == state.allow_draw_on_resize
            &&& after.fg_color == state.fg_color
            &&& after.bg_color == state.bg_color
            &&& after.universe is Some <==> state.universe is Some
            &&& state.universe is Some ==> after.universe->0.rows == state.universe->0.rows
                && after.universe->0.columns == state.universe->0.columns
        }),
{
    let painting = GridState { interaction: UniverseGridInteractionState::Ongoing, ..state };
    if state.universe is Some {
        match event {
            AreaEvent::Pressed { button, x, y } if state.mode is Design => {
                law_alter_edits_one_cell(painting, area, x, y, Some(button.paint()));
            },
            AreaEvent::DragBegan {
                button,
                start: Some((x, y)),
            } if state.interaction is Ongoing => {
                law_alter_edits_one_cell(state, area, x, y, Some(button.paint()));
            },
            AreaEvent::DragMoved {
                button,
                position: DragPosition::At { x, y },
            } if state.interaction is Ongoing => {
                law_alter_edits_one_cell(state, area, x, y, Some(button.paint()));
            },
            _ => {},
        }
    }
}

/// A resize that may not be drawn freezes the grid, so that no frame paints
/// anything until the grid is asked to unfreeze; then the state is that of before,
/// unfrozen. A resize that may be drawn changes nothing.
pub proof fn law_resize_freezes_until_unfrozen(state: GridState, width: i32, height: i32)
    ensures
        !state.allow_draw_on_resize ==> {
            &&& state.resized().frozen
            &&& state.resized().frame(width, height) == Seq::<PaintOp>::empty()
            &&& state.resized().after_request(RequestView::Unfreeze) == state.with_frozen(false)
        },
        state.allow_draw_on_resize ==> state.resized() == state && state.resize_effects() == Seq::<
            GridEffect,
        >::empty(),
        !state.frozen ==> state.resized().after_request(RequestView::Unfreeze) == state,
{
}

/// A request to redraw with a universe replaces the universe alone, one without
/// leaves the state alone, and one to unfreeze changes whether the grid is frozen
/// alone.
pub proof fn law_requests_change_one_thing(state: GridState, universe: UniverseView)
    ensures
        state.after_request(RequestView::Redraw(Some(universe))) == (GridState {
            universe: Some(universe),
            ..state
        }),
        state.after_request(RequestView::Redraw(None)) == state,
        state.after_request(RequestView::Unfreeze) == (GridState { frozen: false, ..state }),
{
}

/// A new random universe has the size of the one that it replaces, or the default
/// size where there was none, and the cells that were drawn.
pub proof fn law_seeding_keeps_the_size(state: GridState, cells: Seq<UniverseCell>)
    requires
        state.wf(),
        cells.len() == state.seed_rows() * state.seed_columns(),
    ensures
        state.seeded(cells).wf(),
        state.seeded(cells).universe->0.cells == cells,
        state.universe matches Some(u) ==> state.seeded(cells).universe->0.rows == u.rows
            && state.seeded(cells).universe->0.columns == u.columns,
        state.universe is None ==> state.seeded(cells).universe->0.rows == DEFAULT_SIDE
            && state.seeded(cells).universe->0.columns == DEFAULT_SIDE,
        state.seeded(cells) == (GridState { universe: state.seeded(cells).universe, ..state }),
{
}

/// A universe that was set is the one that a snapshot shows, until the next edit.
pub proof fn law_universe_is_read_back(state: GridState, universe: UniverseView)
    ensures
        state.with_universe(universe).universe == Some(universe),
        state.with_universe(universe) == (GridState { universe: Some(universe), ..state }),
{
}

/// A frozen grid paints nothing; any other begins with the whole area in the
/// background color.
pub proof fn law_frozen_paints_nothing(state: GridState, width: i32, height: i32)
    requires
        state.renderable(),
    ensures
        state.frozen <==> state.frame(width, height).len() == 0,
        !state.frozen ==> {
            &&& state.frame(width, height)[0] == PaintOp::SetSource(state.bg_color->0)
            &&& state.frame(width, height)[1] == (PaintOp::FillArea { width, height })
        },
{
}

/// Where a sequence has no two equal elements, its selected part has none either.
proof fn lemma_filter_keeps_distinct<A>(s: Seq<A>, pred: spec_fn(A) -> bool)
    requires
        s.no_duplicates(),
    ensures
        s.filter(pred).no_duplicates(),
    decreases s.len(),
{
    reveal(Seq::filter);
    if s.len() > 0 {
        let rest = s.drop_last();
        lemma_filter_keeps_distinct(rest, pred);
        if pred(s.last()) {
            assert forall|i: int| 0 <= i < rest.filter(pred).len() implies rest.filter(pred)[i]
                != s.last() by {
                let e = rest.filter(pred)[i];
                assert(rest.filter(pred).contains(e));
                rest.lemma_filter_contains_rev(pred, e);
                let j = choose|j: int| 0 <= j < rest.len() && rest[j] == e;
                assert(s[j] == e);
            }
        }
    }
}

/// The rectangles of a frame are those of the live cells, each painted once.
pub proof fn law_live_cells_are_painted_once(universe: UniverseView, width: i32, height: i32)
    requires
        universe.wf(),
        universe.rows <= usize::MAX,
        universe.columns <= usize::MAX,
    ensures
        forall|row: usize, column: usize|
            universe.holds(row as int, column as int) ==> (#[trigger] universe.live_ops(
                width,
                height,
            ).contains(cell_op(universe, row, column, width, height)) <==> universe.at(
                row as int,
                column as int,
            ) is Alive),
        universe.live_ops(width, height).no_duplicates(),
        forall|i: int|
            0 <= i < universe.live_ops(width, height).len() ==> exists|row: usize, column: usize|
                {
                    &&& universe.holds(row as int, column as int)
                    &&& #[trigger] universe.live_ops(width, height)[i] == #[trigger] cell_op(
                        universe,
                        row,
                        column,
                        width,
                        height,
                    )
                },
{
    let points = universe.points();
    let alive = |p: UniversePoint| p.cell is Alive;
    let rectangle = |p: UniversePoint| cell_op(universe, p.row, p.column, width, height);
    let live = points.filter(alive);
    let ops = universe.live_ops(width, height);
    assert(ops == live.map_values(rectangle));

    assert forall|row: usize, column: usize|
        universe.holds(row as int, column as int) implies (#[trigger] ops.contains(
        cell_op(universe, row, column, width, height),
    ) <==> universe.at(row as int, column as int) is Alive) by {
        let place = universe.index(row as int, column as int);
        lemma_index_of_place(universe, row as int, column as int);
        let point = points[place];
        assert(point == UniversePoint { row, column, cell: universe.cells[place] });
        if universe.at(row as int, column as int) is Alive {
            points.lemma_filter_contains(alive, place);
            let k = choose|k: int| 0 <= k < live.len() && live[k] == point;
            assert(ops[k] == cell_op(universe, row, column, width, height));
        }
        if ops.contains(cell_op(universe, row, column, width, height)) {
            let k = choose|k: int|
                0 <= k < ops.len() && ops[k] == cell_op(universe, row, column, width, height);
            lemma_live_point(universe, k);
        }
    }

    assert forall|i: int, j: int| 0 <= i < points.len() && 0 <= j < points.len() && i != j implies
    points[i] != points[j] by {
        lemma_place_of_index(universe, i);
        lemma_place_of_index(universe, j);
    }
    lemma_filter_keeps_distinct(points, alive);
    assert forall|i: int, j: int| 0 <= i < ops.len() && 0 <= j < ops.len() && i != j implies ops[i]
        != ops[j] by {
        lemma_live_point(universe, i);
        lemma_live_point(universe, j);
        assert(live[i] != live[j]);
    }
    assert forall|i: int| 0 <= i < ops.len() implies exists|row: usize, column: usize|
        {
            &&& universe.holds(row as int, column as int)
            &&& #[trigger] ops[i] == #[trigger] cell_op(universe, row, column, width, height)
        } by {
        lemma_live_point(universe, i);
        assert(ops[i] == cell_op(universe, live[i].row, live[i].column, width, height));
    }
}

/// A live point is the cell of the universe at its own place.
pub proof fn lemma_live_point(universe: UniverseView, k: int)
    requires
        universe.wf(),
        universe.rows <= usize::MAX,
        universe.columns <= usize::MAX,
        0 <= k < universe.live_points().len(),
    ensures
        ({
            let p = universe.live_points()[k];
            &&& universe.holds(p.row as int, p.column as int)
            &&& p.cell == universe.at(p.row as int, p.column as int)
            &&& p.cell is Alive
        }),
{
    let points = universe.points();
    let alive = |p: UniversePoint| p.cell is Alive;
    let p = universe.live_points()[k];
    points.lemma_filter_pred(alive, k);
    assert(points.filter(alive).contains(p));
    points.lemma_filter_contains_rev(alive, p);
    let i = choose|i: int| 0 <= i < points.len() && points[i] == p;
    lemma_place_of_index(universe, i);
}

/// A frame of an unfrozen grid paints the rectangle of a cell exactly if the cell is
/// alive.
pub proof fn law_frame_shows_the_live_cells(
    state: GridState,
    row: usize,
    column: usize,
    width: i32,
    height: i32,
)
    requires
        state.wf(),
        !state.frozen,
        state.universe is Some,
        state.universe->0.holds(row as int, column as int),
    ensures
        state.frame(width, height).contains(
            cell_op(state.universe->0, row, column, width, height),
        ) <==> state.universe->0.at(row as int, column as int) is Alive,
{
    let u = state.universe->0;
    let op = cell_op(u, row, column, width, height);
    let frame = state.frame(width, height);
    let ops = u.live_ops(width, height);
    law_live_cells_are_painted_once(u, width, height);
    assert(ops.contains(op) <==> u.at(row as int, column as int) is Alive);
    if ops.contains(op) {
        let k = choose|k: int| 0 <= k < ops.len() && ops[k] == op;
        assert(frame[k + 3] == op);
    }
    if frame.contains(op) {
        let k = choose|k: int| 0 <= k < frame.len() && frame[k] == op;
        assert(k >= 3);
        assert(ops[k - 3] == op);
    }
}

/// The cell under a pixel is the one whose painted rectangle covers the pixel.
pub proof fn law_pixel_hits_the_painted_cell(
    universe: UniverseView,
    area: DrawingArea,
    row: int,
    column: int,
    x: i32,
    y: i32,
)
    requires
        universe.holds(row, column),
        universe.covers(area, row, column, x, y),
    ensures
        universe.addressable(area, x, y),
        universe.row_under(area, x, y) == row,
        universe.column_under(area, x, y) == column,
{
    lemma_part_of_covered(x, universe.columns, area.width, row);
    lemma_part_of_covered(y, universe.rows, area.height, column);
    law_every_position_has_a_cell(universe, area, x, y);
}

/// Where no painted rectangle covers a pixel of the area, the cell under it is found
/// by sharing the width out among the rows and the height among the columns.
pub proof fn law_blank_pixel_is_shared_out(
    universe: UniverseView,
    area: DrawingArea,
    x: i32,
    y: i32,
)
    requires
        universe.rows > 0,
        universe.columns > 0,
        0 <= x < area.width,
        0 <= y < area.height,
        forall|row: int, column: int|
            universe.holds(row, column) ==> !universe.covers(area, row, column, x, y),
    ensures
        universe.addressable(area, x, y),
        universe.row_under(area, x, y) == (x * universe.rows) / area.width as int,
        universe.column_under(area, x, y) == (y * universe.columns) / area.height as int,
{
    law_every_position_has_a_cell(universe, area, x, y);
    lemma_part_covers(x, universe.columns, area.width);
    lemma_part_covers(y, universe.rows, area.height);
    assert(!universe.painted_at(area, x, y)) by {
        let row = universe.painted_row(area, x);
        let column = universe.painted_column(area, y);
        if universe.holds(row, column) {
            assert(universe.covers(area, row, column, x, y));
        }
    }
    lemma_product_is_nonnegative(x as int, universe.rows as int);
    lemma_product_is_nonnegative(y as int, universe.columns as int);
}

proof fn lemma_product_is_nonnegative(a: int, b: int)
    by (nonlinear_arith)
    requires
        0 <= a,
        0 <= b,
    ensures
        0 <= a * b,
{
}

proof fn lemma_part_covers(position: i32, parts: nat, extent: i32)
    requires
        0 <= position,
        0 < extent,
    ensures
        part_at(position, parts, extent) * extent <= position * parts < (part_at(
            position,
            parts,
            extent,
        ) + 1) * extent,
{
    let product = position * parts;
    let part = product / extent as int;
    lemma_product_is_nonnegative(position as int, parts as int);
    lemma_fundamental_div_mod(product, extent as int);
    assert(extent * part == part * extent) by (nonlinear_arith);
    assert((part + 1) * extent == part * extent + extent) by (nonlinear_arith);
}

proof fn lemma_part_of_covered(position: i32, parts: nat, extent: i32, part: int)
    requires
        0 <= part,
        0 < parts,
        part * extent <= position * parts < (part + 1) * extent,
        position < extent,
    ensures
        0 <= position,
        0 < extent,
        part < parts,
        part_at(position, parts, extent) == part,
{
    let product = position * parts;
    let rest = product - part * extent;
    assert((part + 1) * extent == part * extent + extent) by (nonlinear_arith);
    assert(0 <= part * extent) by (nonlinear_arith)
        requires
            0 <= part,
            0 < extent,
    ;
    lemma_fundamental_div_mod_converse(product, extent as int, part, rest);
    assert(0 <= position) by (nonlinear_arith)
        requires
            0 <= position * parts,
            0 < parts,
    ;
    assert(part < parts) by (nonlinear_arith)
        requires
            part * extent <= position * parts,
            position < extent,
            0 < parts,
            0 < extent,
    ;
}

/// Every position on the area, right up to the edges, has a cell. At the far edges of
/// a square universe it is in the last row or the last column.
pub proof fn law_every_position_has_a_cell(
    universe: UniverseView,
    area: DrawingArea,
    x: i32,
    y: i32,
)
    requires
        universe.rows > 0,
        universe.columns > 0,
        0 < area.width,
        0 < area.height,
        0 <= x <= area.width,
        0 <= y <= area.height,
    ensures
        universe.addressable(area, x, y),
        universe.holds(universe.row_under(area, x, y), universe.column_under(area, x, y)),
        universe.rows == universe.columns && x == area.width ==> universe.row_under(area, x, y)
            == universe.rows - 1,
        universe.rows == universe.columns && y == area.height ==> universe.column_under(area, x, y)
            == universe.columns - 1,
{
    lemma_position_is_on_axis(x, universe.rows, area.width);
    lemma_position_is_on_axis(y, universe.columns, area.height);
}

proof fn lemma_position_is_on_axis(position: i32, parts: nat, extent: i32)
    requires
        0 < parts,
        0 <= position <= extent,
        0 < extent,
    ensures
        on_axis(position, parts, extent),
{
    let product = position * parts;
    if position < extent {
        assert(0 <= product < parts * extent) by (nonlinear_arith)
            requires
                product == position * parts,
                0 <= position < extent,
                0 < parts,
        ;
        lemma_multiply_divide_lt(product, extent as int, parts as int);
        lemma_div_pos_is_pos(product, extent as int);
    }
}

/// What is painted is what is seen: after a press in design mode on a pixel of the
/// area that the rectangle of a cell covers, a frame paints that rectangle exactly if
/// the button was the primary one, and every other cell as before.
pub proof fn law_press_shows_on_the_pressed_cell(
    state: GridState,
    area: DrawingArea,
    row: usize,
    column: usize,
    button: PointerButton,
    x: i32,
    y: i32,
)
    requires
        state.wf(),
        !state.frozen,
        state.mode is Design,
        state.universe is Some,
        state.universe->0.holds(row as int, column as int),
        state.universe->0.covers(area, row as int, column as int, x, y),
    ensures
        ({
            let u = state.universe->0;
            let event = AreaEvent::Pressed { button, x, y };
            let before = state.frame(area.width, area.height);
            let after = state.after_event(area, event).frame(area.width, area.height);
            &&& state.accepts(area, event)
            &&& state.event_effects(event) == seq![GridEffect::QueueDraw]
            &&& after.contains(cell_op(u, row, column, area.width, area.height))
                <==> button is Primary
            &&& forall|r: usize, c: usize|
                u.holds(r as int, c as int) && !(r == row && c == column) ==> (
                #[trigger] after.contains(cell_op(u, r, c, area.width, area.height))
                    <==> before.contains(cell_op(u, r, c, area.width, area.height)))
        }),
{
    let u = state.universe->0;
    let event = AreaEvent::Pressed { button, x, y };
    let pressed = state.after_event(area, event);
    let ongoing = GridState { interaction: UniverseGridInteractionState::Ongoing, ..state };
    law_pixel_hits_the_painted_cell(u, area, row as int, column as int, x, y);
    law_alter_edits_one_cell(ongoing, area, x, y, Some(button.paint()));
    law_events_keep_size_and_mode(state, area, event);
    law_frame_shows_the_live_cells(pressed, row, column, area.width, area.height);
    let before = state.frame(area.width, area.height);
    let after = pressed.frame(area.width, area.height);
    assert forall|r: usize, c: usize|
        u.holds(r as int, c as int) && !(r == row && c == column) implies (
    #[trigger] after.contains(cell_op(u, r, c, area.width, area.height)) <==> before.contains(
        cell_op(u, r, c, area.width, area.height),
    )) by {
        law_frame_shows_the_live_cells(pressed, r, c, area.width, area.height);
        law_frame_shows_the_live_cells(state, r, c, area.width, area.height);
        assert(pressed.universe->0.at(r as int, c as int) == u.at(r as int, c as int));
    }
}

/// Properties have different names, so each is found by its own.
pub proof fn law_property_names_are_distinct(property: GridProperty)
    ensures
        GridProperty::titled(property.title()) == Some(property),
{
    reveal_strlit("mode");
    reveal_strlit("allow-draw-on-resize");
    reveal_strlit("frozen");
    reveal_strlit("is-running");
    assert("mode"@.len() == 4);
    assert("allow-draw-on-resize"@.len() == 20);
    assert("frozen"@.len() == 6);
    assert("is-running"@.len() == 10);
}

/// A property that can be set holds what it was set to, but for the mode of a
/// running grid, which stays. The other properties keep what they held.
pub proof fn law_property_is_read_back(
    state: GridState,
    property: GridProperty,
    other: GridProperty,
    value: PropertyValue,
)
    requires
        GridState::settable(property.title(), value),
        other != property,
    ensures
        ({
            let after = state.with_property(property.title(), value);
            &&& !(property is Mode && state.running) ==> after.property_value(property) == value
            &&& property is Mode && state.running ==> after == state
            &&& after.property_value(other) == state.property_value(other)
        }),
{
    law_property_names_are_distinct(property);
}

/// Whether the grid runs can be read, but not set.
pub proof fn law_running_cannot_be_set(value: PropertyValue)
    ensures
        !GridState::settable(GridProperty::IsRunning.title(), value),
{
    law_property_names_are_distinct(GridProperty::IsRunning);
}

/// The next generation has the size of the one before, and at each place the value
/// that the rule of life gives.
pub proof fn law_generations_follow_the_rule(universe: UniverseView)
    requires
        universe.wf(),
    ensures
        universe.next_generation().wf(),
        universe.next_generation().rows == universe.rows,
        universe.next_generation().columns == universe.columns,
        forall|row: int, column: int|
            universe.holds(row, column) ==> #[trigger] universe.next_generation().at(row, column)
                == universe.next_cell(row, column),
{
    assert forall|row: int, column: int| universe.holds(row, column) implies
    #[trigger] universe.next_generation().at(row, column) == universe.next_cell(row, column) by {
        lemma_index_of_place(universe, row, column);
    }
}

/// What becomes of a cell depends on that cell and those that touch it alone.
pub proof fn law_evolution_is_local(
    universe: UniverseView,
    other: UniverseView,
    row: int,
    column: int,
)
    requires
        universe.wf(),
        other.wf(),
        universe.holds(row, column),
        other.holds(row, column),
        universe.agrees_around(other, row, column),
    ensures
        universe.next_generation().at(row, column) == other.next_generation().at(row, column),
{
    law_generations_follow_the_rule(universe);
    law_generations_follow_the_rule(other);
    assert(universe.lives(row, column) == other.lives(row, column));
    assert(universe.at(row, column) == other.at(row, column));
    assert(universe.next_generation().at(row, column) == universe.next_cell(row, column));
    assert(other.next_generation().at(row, column) == other.next_cell(row, column));
}

/// No life comes from nothing: a universe without live cells stays as it is.
pub proof fn law_dead_universe_stays_dead(universe: UniverseView)
    requires
        universe.wf(),
        forall|i: int| 0 <= i < universe.cells.len() ==> universe.cells[i] is Dead,
    ensures
        universe.next_generation() == universe,
{
    assert forall|row: int, column: int| !#[trigger] universe.lives(row, column) by {
        if universe.holds(row, column) {
            lemma_index_of_place(universe, row, column);
        }
    }
    let next = universe.next_generation();
    assert forall|i: int| 0 <= i < universe.cells.len() implies next.cells[i] == universe.cells[
        i
    ] by {
        lemma_place_of_index(universe, i);
    }
    assert(next.cells =~= universe.cells);
}

/// However long the simulation runs, the universe keeps its size.
pub proof fn law_simulation_keeps_the_size(universe: UniverseView, n: nat)
    requires
        universe.wf(),
    ensures
        universe.generation(n).wf(),
        universe.generation(n).rows == universe.rows,
        universe.generation(n).columns == universe.columns,
    decreases n,
{
    if n > 0 {
        law_simulation_keeps_the_size(universe, (n - 1) as nat);
        law_generations_follow_the_rule(universe.generation((n - 1) as nat));
    }
}

/// A ticker probes its stopper before each generation. A probe that is delivered is
/// followed by the wait, by a post of the next generation and by another probe; one
/// that is not delivered ends the ticker, and its universe stays as it was.
pub proof fn law_ticker_probes_before_each_generation(universe: UniverseView)
    ensures
        ({
            let delivered = TickerEvent::Probed { delivered: true };
            let refused = TickerEvent::Probed { delivered: false };
            let next = universe.next_generation();
            &&& universe.ticker_action(TickerEvent::Spawned) is Probe
            &&& universe.ticker_action(delivered) is Sleep
            &&& universe.after_ticker_event(delivered) == universe
            &&& universe.ticker_action(TickerEvent::Slept) == TickerActionView::Post(
                RequestView::Redraw(Some(next)),
            )
            &&& universe.after_ticker_event(TickerEvent::Slept) == next
            &&& next.ticker_action(TickerEvent::Posted) is Probe
            &&& next.after_ticker_event(TickerEvent::Posted) == next
            &&& universe.ticker_action(refused) is Exit
            &&& universe.after_ticker_event(refused) == universe
        }),
{
}

/// The request that a ticker posts after `n` earlier ones holds the generation after
/// them, and the ticker goes on from there.
pub proof fn law_ticker_posts_each_generation(start: UniverseView, n: nat)
    ensures
        start.generation(n).ticker_action(TickerEvent::Slept) == TickerActionView::Post(
            RequestView::Redraw(Some(start.generation(n + 1))),
        ),
        start.generation(n).after_ticker_event(TickerEvent::Slept) == start.generation(n + 1),
{
}

/// A started grid that is left alone shows one generation after the other of the
/// universe that it started with.
pub proof fn law_running_grid_shows_each_generation(state: GridState, n: nat)
    requires
        state.universe is Some,
    ensures
        state.started().after_ticks(state.universe->0, n) == state.started().with_universe(
            state.universe->0.generation(n),
        ),
    decreases n,
{
    if n > 0 {
        law_running_grid_shows_each_generation(state, (n - 1) as nat);
    }
}

/// A grid that shows a universe shows one ever after.
pub proof fn law_universe_is_never_lost(
    state: GridState,
    area: DrawingArea,
    event: AreaEvent,
    request: RequestView,
    name: Seq<char>,
    value: PropertyValue,
    cells: Seq<UniverseCell>,
    universe: UniverseView,
)
    requires
        state.universe is Some,
    ensures
        state.after_event(area, event).universe is Some,
        state.after_request(request).universe is Some,
        state.with_property(name, value).universe is Some,
        state.seeded(cells).universe is Some,
        state.with_universe(universe).universe is Some,
        state.started().universe is Some,
        state.stopped().universe is Some,
        state.toggled().universe is Some,
{
}

} // verus!
