use crate::universe::{Universe, UniversePoint, UniverseView};
use vstd::arithmetic::div_mod::lemma_fundamental_div_mod;
use vstd::prelude::*;

verus! {

/// The size in pixels of the area that a grid is drawn on.
#[derive(Debug, Clone, Copy, PartialEq, Eq, Structural)]
pub struct DrawingArea {
    pub width: i32,
    pub height: i32,
}

/// Division that rounds toward zero.
pub open spec fn quotient(dividend: int, divisor: int) -> int {
    if dividend >= 0 {
        dividend / divisor
    } else {
        -((-dividend) / divisor)
    }
}

/// The part that holds `position` when `extent` pixels are cut into `parts`
/// equal parts.
pub open spec fn part_at(position: i32, parts: nat, extent: i32) -> int {
    quotient(position * parts, extent as int)
}

/// The part that `position` belongs to: the one that holds it, and at the far end of
/// the axis the last one.
pub open spec fn share_at(position: i32, parts: nat, extent: i32) -> int {
    if position == extent {
        parts - 1
    } else {
        part_at(position, parts, extent)
    }
}

/// `position` lies on an axis of `extent` pixels, both ends taken in, or before its
/// start by less than one of `parts` equal parts.
pub open spec fn on_axis(position: i32, parts: nat, extent: i32) -> bool {
    &&& extent != 0
    &&& 0 <= part_at(position, parts, extent) < parts || 0 < position == extent
}

impl DrawingArea {
    /// The position `x`, `y` lies on the area, its edges taken in.
    pub open spec fn contains(self, x: i32, y: i32) -> bool {
        0 <= x <= self.width && 0 <= y <= self.height
    }
}

impl UniverseView {
    /// The row that is painted at the horizontal position `x`, if there are that many:
    /// a cell is as wide as the width of the area divided by the number of columns,
    /// and rows follow each other from left to right.
    pub open spec fn painted_row(self, area: DrawingArea, x: i32) -> int {
        share_at(x, self.columns, area.width)
    }

    /// The column that is painted at the vertical position `y`, if there are that
    /// many: a cell is as high as the height of the area divided by the number of
    /// rows, and columns follow each other from top to bottom.
    pub open spec fn painted_column(self, area: DrawingArea, y: i32) -> int {
        share_at(y, self.rows, area.height)
    }

    /// A cell is painted at the position `x`, `y` of the area. Where there are more
    /// rows than columns, or more columns than rows, some of the area is left blank.
    pub open spec fn painted_at(self, area: DrawingArea, x: i32, y: i32) -> bool {
        area.contains(x, y) && self.holds(self.painted_row(area, x), self.painted_column(area, y))
    }

    /// The row under the position `x`, `y`: that of the cell that is painted there,
    /// and where none is, the one that `x` falls to when the width is shared out among
    /// the rows.
    pub open spec fn row_under(self, area: DrawingArea, x: i32, y: i32) -> int {
        if self.painted_at(area, x, y) {
            self.painted_row(area, x)
        } else {
            share_at(x, self.rows, area.width)
        }
    }

    /// The column under the position `x`, `y`: that of the cell that is painted there,
    /// and where none is, the one that `y` falls to when the height is shared out
    /// among the columns.
    pub open spec fn column_under(self, area: DrawingArea, x: i32, y: i32) -> int {
        if self.painted_at(area, x, y) {
            self.painted_column(area, y)
        } else {
            share_at(y, self.columns, area.height)
        }
    }

    /// There are cells, and the position `x`, `y` lies on the area or close enough
    /// before it.
    pub open spec fn addressable(self, area: DrawingArea, x: i32, y: i32) -> bool {
        &&& self.rows > 0
        &&& self.columns > 0
        &&& on_axis(x, self.rows, area.width)
        &&& on_axis(y, self.columns, area.height)
    }

    /// The cell under the position `x`, `y` of the area.
    pub open spec fn cell_under(self, area: DrawingArea, x: i32, y: i32) -> UniversePoint {
        UniversePoint {
            row: self.row_under(area, x, y) as usize,
            column: self.column_under(area, x, y) as usize,
            cell: self.at(self.row_under(area, x, y), self.column_under(area, x, y)),
        }
    }
}

/// A quotient is no larger than its dividend.
proof fn lemma_quotient_fits(dividend: int, divisor: int, bound: int)
    requires
        divisor != 0,
        -bound <= dividend <= bound,
    ensures
        -bound <= quotient(dividend, divisor) <= bound,
{
    let m = if dividend >= 0 {
        dividend
    } else {
        -dividend
    };
    let q = m / divisor;
    let r = m % divisor;
    lemma_fundamental_div_mod(m, divisor);
    if divisor > 0 {
        assert(0 <= q <= m) by (nonlinear_arith)
            requires
                divisor > 0,
                0 <= r < divisor,
                m == divisor * q + r,
                m >= 0,
        ;
    } else {
        assert(-m <= q <= 0) by (nonlinear_arith)
            requires
                divisor < 0,
                0 <= r < -divisor,
                m == divisor * q + r,
                m >= 0,
        ;
    }
}

fn find_part(position: i32, parts: usize, extent: i32) -> (part: i128)
    requires
        extent != 0,
    ensures
        part == part_at(position, parts as nat, extent),
{
    proof {
        assert(-0x8000_0000_0000_0000_0000_0000 <= position * parts
            <= 0x8000_0000_0000_0000_0000_0000) by (nonlinear_arith)
            requires
                -0x8000_0000 <= position <= 0x8000_0000,
                0 <= parts <= 0x1_0000_0000_0000_0000,
        ;
        lemma_quotient_fits(
            position * parts,
            extent as int,
            0x8000_0000_0000_0000_0000_0000,
        );
    }
    (position as i128 * parts as i128) / extent as i128
}

fn find_share(position: i32, parts: usize, extent: i32) -> (share: i128)
    requires
        extent != 0,
    ensures
        share == share_at(position, parts as nat, extent),
{
    if position == extent {
        parts as i128 - 1
    } else {
        find_part(position, parts, extent)
    }
}

fn is_on_axis(position: i32, parts: usize, extent: i32) -> (inside: bool)
    ensures
        inside == on_axis(position, parts as nat, extent),
{
    if extent == 0 {
        false
    } else {
        let part: i128 = find_part(position, parts, extent);
        (0 <= part && part < parts as i128) || (0 < position && position == extent)
    }
}

/// Tells whether there is a cell for the position `x`, `y` of the area.
pub fn is_addressable(drawing_area: &DrawingArea, universe: &Universe, x: i32, y: i32) -> (on_cell:
    bool)
    ensures
        on_cell == universe@.addressable(*drawing_area, x, y),
{
    universe.rows() > 0 && universe.columns() > 0 && is_on_axis(
        x,
        universe.rows(),
        drawing_area.width,
    ) && is_on_axis(y, universe.columns(), drawing_area.height)
}

/// Maps a point on the widget area onto a cell in a given universe.
pub fn widget_area_point_to_universe_cell(
    drawing_area: &DrawingArea,
    universe: Option<&Universe>,
    x: i32,
    y: i32,
) -> (point: Option<UniversePoint>)
    requires
        universe matches Some(u) ==> u.wf() && u@.addressable(*drawing_area, x, y),
    ensures
        point == match universe {
            Some(u) => Some(u@.cell_under(*drawing_area, x, y)),
            None => None,
        },
{
    if let Some(universe) = universe {
        let (widget_width, widget_height): (i32, i32) = (drawing_area.width, drawing_area.height);
        let (rows, columns): (usize, usize) = (universe.rows(), universe.columns());

        if 0 <= x && x <= widget_width && 0 <= y && y <= widget_height {
            let painted_row: i128 = find_share(x, columns, widget_width);
            let painted_column: i128 = find_share(y, rows, widget_height);
            if 0 <= painted_row && painted_row < rows as i128 && 0 <= painted_column
                && painted_column < columns as i128 {
                return Some(universe.get(painted_row as usize, painted_column as usize));
            }
        }
        let universe_row: i128 = find_share(x, rows, widget_width);
        let universe_column: i128 = find_share(y, columns, widget_height);

        Some(universe.get(universe_row as usize, universe_column as usize))
    } else {
        None
    }
}

} // verus!
