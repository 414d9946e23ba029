//! Which cell belongs to which position of the drawing area, said without the divisions
//! that find it.

use crate::geometry::{on_axis, share_at, DrawingArea};
use crate::universe::UniverseView;
use vstd::arithmetic::div_mod::{
    lemma_div_pos_is_pos, lemma_fundamental_div_mod, lemma_fundamental_div_mod_converse,
};
use vstd::prelude::*;

verus! {

/// When `extent` pixels are cut into `parts` equal parts, number `part` of them reaches
/// `position`. The last part takes in the far end.
pub open spec fn reaches(part: int, parts: nat, extent: int, position: int) -> bool {
    if position == extent {
        part + 1 == parts
    } else {
        part * extent <= position * parts < (part + 1) * extent
    }
}

/// `position` lies on an axis of `extent` pixels, or before its start by less than one
/// of `parts` equal parts. The pixels of a negative extent are counted backward.
pub open spec fn within_axis(position: int, parts: nat, extent: int) -> bool {
    if extent > 0 {
        -extent < position * parts && position <= extent
    } else {
        extent < position && position * parts < -extent
    }
}

/// The rectangle of the cell at `row` and `column` reaches the position `x`, `y` of the
/// area: there are as many rectangles to the width as columns, and as many to the height
/// as rows.
pub open spec fn rectangle_reaches(
    universe: UniverseView,
    area: DrawingArea,
    row: int,
    column: int,
    x: i32,
    y: i32,
) -> bool {
    &&& 0 <= row < universe.rows
    &&& 0 <= column < universe.columns
    &&& 0 <= x <= area.width
    &&& 0 <= y <= area.height
    &&& reaches(row, universe.columns, area.width as int, x as int)
    &&& reaches(column, universe.rows, area.height as int, y as int)
}

/// `index` is the part that `position` falls to when the axis is shared out among
/// `parts` of them; before the start of the axis that is the first one.
pub open spec fn shared_out(index: int, parts: nat, extent: int, position: int) -> bool {
    if extent > 0 {
        if position < 0 {
            index == 0
        } else {
            reaches(index, parts, extent, position)
        }
    } else {
        if position > 0 {
            index == 0
        } else {
            reaches(index, parts, -extent, -position)
        }
    }
}

proof fn lemma_product_sign(a: int, b: int)
    by (nonlinear_arith)
    requires
        0 < b,
    ensures
        0 <= a <==> 0 <= a * b,
        0 < a <==> 0 < a * b,
{
}

/// Dividing by a negative number is dividing by its opposite and changing the sign.
proof fn lemma_negative_divisor(m: int, divisor: int)
    requires
        0 <= m,
        divisor < 0,
    ensures
        m / divisor == -(m / (-divisor)),
{
    let q = m / divisor;
    let r = m % divisor;
    lemma_fundamental_div_mod(m, divisor);
    assert(m == (-q) * (-divisor) + r) by (nonlinear_arith)
        requires
            m == divisor * q + r,
    ;
    lemma_fundamental_div_mod_converse(m, -divisor, -q, r);
}

/// The whole part of a quotient of natural numbers.
proof fn lemma_whole_part(m: int, divisor: int)
    requires
        0 <= m,
        0 < divisor,
    ensures
        0 <= m / divisor,
        (m / divisor) * divisor <= m < (m / divisor + 1) * divisor,
{
    let q = m / divisor;
    lemma_fundamental_div_mod(m, divisor);
    lemma_div_pos_is_pos(m, divisor);
    assert(divisor * q == q * divisor) by (nonlinear_arith);
    assert((q + 1) * divisor == q * divisor + divisor) by (nonlinear_arith);
}

/// There is one whole number between which and the next a quotient lies.
proof fn lemma_whole_part_is_unique(m: int, divisor: int, q: int)
    requires
        0 < divisor,
        q * divisor <= m < (q + 1) * divisor,
    ensures
        m / divisor == q,
{
    assert((q + 1) * divisor == q * divisor + divisor) by (nonlinear_arith);
    lemma_fundamental_div_mod_converse(m, divisor, q, m - q * divisor);
}

/// A quotient of natural numbers is below a bound exactly if the dividend is below the
/// multiple.
proof fn lemma_whole_part_below(m: int, divisor: int, bound: int)
    requires
        0 <= m,
        0 < divisor,
    ensures
        m / divisor < bound <==> m < bound * divisor,
{
    let q = m / divisor;
    lemma_whole_part(m, divisor);
    if q < bound {
        assert((q + 1) * divisor <= bound * divisor) by (nonlinear_arith)
            requires
                q + 1 <= bound,
                0 < divisor,
        ;
    } else {
        assert(bound * divisor <= q * divisor) by (nonlinear_arith)
            requires
                bound <= q,
                0 < divisor,
        ;
    }
}

proof fn lemma_on_axis(position: i32, parts: nat, extent: i32)
    requires
        0 < parts,
    ensures
        on_axis(position, parts, extent) <==> extent != 0 && within_axis(
            position as int,
            parts,
            extent as int,
        ),
{
    let n = position * parts;
    let d = extent as int;
    lemma_product_sign(position as int, parts as int);
    lemma_product_sign(-position as int, parts as int);
    assert((-position) * parts == -n) by (nonlinear_arith)
        requires
            n == position * parts,
    ;
    if d > 0 {
        if n >= 0 {
            lemma_whole_part(n, d);
            lemma_whole_part_below(n, d, parts as int);
            assert(n < parts * d <==> position < d) by (nonlinear_arith)
                requires
                    n == position * parts,
                    0 < parts,
            ;
        } else {
            lemma_whole_part(-n, d);
            lemma_whole_part_below(-n, d, 1);
        }
    } else if d < 0 {
        if n >= 0 {
            lemma_negative_divisor(n, d);
            lemma_whole_part(n, -d);
            lemma_whole_part_below(n, -d, 1);
        } else {
            lemma_negative_divisor(-n, d);
            lemma_whole_part(-n, -d);
            lemma_whole_part_below(-n, -d, parts as int);
            assert(-n < parts * (-d) <==> d < position) by (nonlinear_arith)
                requires
                    n == position * parts,
                    0 < parts,
            ;
        }
    }
}

proof fn lemma_share_is_shared_out(position: i32, parts: nat, extent: i32)
    requires
        0 < parts,
        extent != 0,
        within_axis(position as int, parts, extent as int),
    ensures
        shared_out(share_at(position, parts, extent), parts, extent as int, position as int),
        0 <= share_at(position, parts, extent) < parts,
{
    let n = position * parts;
    let d = extent as int;
    lemma_on_axis(position, parts, extent);
    lemma_product_sign(position as int, parts as int);
    lemma_product_sign(-position as int, parts as int);
    assert((-position) * parts == -n) by (nonlinear_arith)
        requires
            n == position * parts,
    ;
    if d > 0 {
        if n >= 0 {
            lemma_whole_part(n, d);
        } else {
            lemma_whole_part(-n, d);
            lemma_whole_part_below(-n, d, 1);
        }
    } else {
        if n >= 0 {
            lemma_negative_divisor(n, d);
            lemma_whole_part(n, -d);
            lemma_whole_part_below(n, -d, 1);
        } else {
            lemma_negative_divisor(-n, d);
            lemma_whole_part(-n, -d);
        }
    }
}

/// The part that reaches a position on the axis is the share of the position.
proof fn lemma_reaching_part(part: int, parts: nat, extent: i32, position: i32)
    requires
        0 <= position <= extent,
        0 < extent,
    ensures
        reaches(part, parts, extent as int, position as int) <==> share_at(position, parts, extent)
            == part,
{
    let n = position * parts;
    assert(0 <= n) by (nonlinear_arith)
        requires
            n == position * parts,
            0 <= position,
            0 <= parts,
    ;
    if position < extent {
        lemma_whole_part(n, extent as int);
        if reaches(part, parts, extent as int, position as int) {
            lemma_whole_part_is_unique(n, extent as int, part);
        }
    }
}

/// A position belongs to some cell exactly if there are cells and it lies on the area,
/// its far edges taken in, or before it by less than one part: a row's part of the width,
/// a column's of the height.
pub proof fn law_positions_with_a_cell(universe: UniverseView, area: DrawingArea, x: i32, y: i32)
    ensures
        universe.addressable(area, x, y) <==> {
            &&& universe.rows > 0
            &&& universe.columns > 0
            &&& area.width != 0
            &&& area.height != 0
            &&& within_axis(x as int, universe.rows, area.width as int)
            &&& within_axis(y as int, universe.columns, area.height as int)
        },
{
    if universe.rows > 0 && universe.columns > 0 {
        lemma_on_axis(x, universe.rows, area.width);
        lemma_on_axis(y, universe.columns, area.height);
    }
}

/// The cell under a position is the one whose painted rectangle reaches it. There is at
/// most one such cell.
pub proof fn law_rectangle_at_a_position(
    universe: UniverseView,
    area: DrawingArea,
    row: int,
    column: int,
    x: i32,
    y: i32,
)
    requires
        0 < area.width,
        0 < area.height,
        rectangle_reaches(universe, area, row, column, x, y),
    ensures
        universe.addressable(area, x, y),
        universe.row_under(area, x, y) == row,
        universe.column_under(area, x, y) == column,
{
    lemma_reaching_part(row, universe.columns, area.width, x);
    lemma_reaching_part(column, universe.rows, area.height, y);
    law_positions_with_a_cell(universe, area, x, y);
    lemma_product_sign(x as int, universe.rows as int);
    lemma_product_sign(y as int, universe.columns as int);
}

/// Where no painted rectangle reaches a position, the width is shared out among the rows
/// and the height among the columns.
pub proof fn law_no_rectangle_at_a_position(
    universe: UniverseView,
    area: DrawingArea,
    x: i32,
    y: i32,
)
    requires
        universe.addressable(area, x, y),
        forall|row: int, column: int| !rectangle_reaches(universe, area, row, column, x, y),
    ensures
        0 <= universe.row_under(area, x, y) < universe.rows,
        0 <= universe.column_under(area, x, y) < universe.columns,
        shared_out(
            universe.row_under(area, x, y),
            universe.rows,
            area.width as int,
            x as int,
        ),
        shared_out(
            universe.column_under(area, x, y),
            universe.columns,
            area.height as int,
            y as int,
        ),
{
    law_positions_with_a_cell(universe, area, x, y);
    lemma_share_is_shared_out(x, universe.rows, area.width);
    lemma_share_is_shared_out(y, universe.columns, area.height);
    if universe.painted_at(area, x, y) {
        let row = universe.painted_row(area, x);
        let column = universe.painted_column(area, y);
        lemma_reaching_part(row, universe.columns, area.width, x);
        lemma_reaching_part(column, universe.rows, area.height, y);
        assert(rectangle_reaches(universe, area, row, column, x, y));
    }
}

/// The point that is found at a position holds the place under it, and the value of the
/// cell at that place.
pub proof fn law_point_found_at_a_position(
    universe: UniverseView,
    area: DrawingArea,
    x: i32,
    y: i32,
)
    requires
        universe.rows <= usize::MAX,
        universe.columns <= usize::MAX,
        universe.addressable(area, x, y),
    ensures
        ({
            let point = universe.cell_under(area, x, y);
            &&& point.row == universe.row_under(area, x, y)
            &&& point.column == universe.column_under(area, x, y)
            &&& point.cell == universe.cells[point.row * universe.columns + point.column]
        }),
{
    law_positions_with_a_cell(universe, area, x, y);
    lemma_share_is_shared_out(x, universe.rows, area.width);
    lemma_share_is_shared_out(y, universe.columns, area.height);
}

} // verus!
