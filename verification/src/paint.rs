use crate::state::{GridState, Rgba};
use crate::universe::{Universe, UniversePoint, UniverseView};
use vstd::prelude::*;

verus! {

/// A length of `numerator` pixels divided into `denominator` equal parts.
#[derive(Debug, Clone, Copy, PartialEq, Eq, Structural)]
pub struct Ratio {
    pub numerator: i32,
    pub denominator: usize,
}

/// One step of painting a frame.
#[derive(Debug, Clone, Copy, PartialEq, Eq, Structural)]
pub enum PaintOp {
    /// Use this color for what is filled from now on.
    SetSource(Rgba),
    /// Fill the rectangle of this size at the origin.
    FillArea { width: i32, height: i32 },
    /// Fill the rectangle of size `cell_width` by `cell_height` whose left edge is at
    /// `row` times `cell_width` and whose top edge is at `column` times `cell_height`.
    FillCell { row: usize, column: usize, cell_width: Ratio, cell_height: Ratio },
    /// There are no cells to paint.
    NoUniverse,
}

/// The rectangle of the cell at `row` and `column`, on an area of `width` by
/// `height` pixels: it is as wide as the width divided by the number of columns,
/// and as high as the height divided by the number of rows.
pub open spec fn cell_op(
    universe: UniverseView,
    row: usize,
    column: usize,
    width: i32,
    height: i32,
) -> PaintOp {
    PaintOp::FillCell {
        row,
        column,
        cell_width: Ratio { numerator: width, denominator: universe.columns as usize },
        cell_height: Ratio { numerator: height, denominator: universe.rows as usize },
    }
}

impl UniverseView {
    /// The live cells with their places, row after row.
    pub open spec fn live_points(self) -> Seq<UniversePoint> {
        self.points().filter(|p: UniversePoint| p.cell is Alive)
    }

    /// The rectangles of the live cells, row after row.
    pub open spec fn live_ops(self, width: i32, height: i32) -> Seq<PaintOp> {
        self.live_points().map_values(
            |p: UniversePoint| cell_op(self, p.row, p.column, width, height),
        )
    }
}

impl GridState {
    /// A frame can be painted: colors are needed unless the grid is frozen.
    pub open spec fn renderable(self) -> bool {
        self.frozen || (self.fg_color is Some && self.bg_color is Some)
    }

    /// What a frame of `width` by `height` pixels consists of: nothing while the
    /// grid is frozen, else the background and on it the live cells.
    pub open spec fn frame(self, width: i32, height: i32) -> Seq<PaintOp> {
        if self.frozen {
            seq![]
        } else {
            seq![
                PaintOp::SetSource(self.bg_color->0),
                PaintOp::FillArea { width, height },
            ] + match self.universe {
                Some(u) => seq![PaintOp::SetSource(self.fg_color->0)] + u.live_ops(width, height),
                None => seq![PaintOp::NoUniverse],
            }
        }
    }
}

/// Adds the rectangles of the live cells to `ops`.
pub(crate) fn push_live_ops(universe: &Universe, width: i32, height: i32, ops: &mut Vec<PaintOp>)
    requires
        universe.wf(),
    ensures
        final(ops)@ == old(ops)@ + universe@.live_ops(width, height),
{
    let cell_width: Ratio = Ratio { numerator: width, denominator: universe.columns() };
    let cell_height: Ratio = Ratio { numerator: height, denominator: universe.rows() };
    let points: Vec<UniversePoint> = universe.iter_cells();
    let ghost alive = |p: UniversePoint| p.cell is Alive;
    let ghost rectangle = |p: UniversePoint| cell_op(universe@, p.row, p.column, width, height);
    let ghost before = ops@;
    let mut i: usize = 0;
    while i < points.len()
        invariant
            universe.wf(),
            points@ == universe@.points(),
            i <= points.len(),
            cell_width == (Ratio { numerator: width, denominator: universe@.columns as usize }),
            cell_height == (Ratio { numerator: height, denominator: universe@.rows as usize }),
            alive == |p: UniversePoint| p.cell is Alive,
            rectangle == |p: UniversePoint|
                cell_op(universe@, p.row, p.column, width, height),
            ops@ == before + points@.take(i as int).filter(alive).map_values(rectangle),
        decreases points.len() - i,
    {
        let el: UniversePoint = points[i];
        proof {
            let taken = points@.take(i as int);
            assert(points@.take(i + 1).drop_last() == taken);
            assert(points@.take(i + 1).filter(alive) == if alive(el) {
                taken.filter(alive).push(el)
            } else {
                taken.filter(alive)
            }) by {
                reveal(Seq::filter);
            }
            assert(taken.filter(alive).push(el).map_values(rectangle) == taken.filter(
                alive,
            ).map_values(rectangle).push(rectangle(el)));
        }
        if el.cell().is_alive() {
            let w: usize = el.row();
            let h: usize = el.column();
            ops.push(PaintOp::FillCell { row: w, column: h, cell_width, cell_height });
        }
        i += 1;
    }
    proof {
        assert(points@.take(points.len() as int) == points@);
    }
}

} // verus!
