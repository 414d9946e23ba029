use crate::cell::UniverseCell;
use vstd::arithmetic::div_mod::{
    lemma_div_pos_is_pos, lemma_fundamental_div_mod, lemma_fundamental_div_mod_converse,
    lemma_multiply_divide_lt,
};
use vstd::prelude::*;

verus! {

/// The mathematical content of a universe: its dimensions, and its cells row
/// after row.
#[verifier::ext_equal]
pub struct UniverseView {
    pub rows: nat,
    pub columns: nat,
    pub cells: Seq<UniverseCell>,
}

impl UniverseView {
    /// There is one cell for each pair of a row and a column.
    pub open spec fn wf(self) -> bool {
        self.cells.len() == self.rows * self.columns
    }

    pub open spec fn holds(self, row: int, column: int) -> bool {
        0 <= row < self.rows && 0 <= column < self.columns
    }

    /// Where the cell at `row` and `column` stands among `cells`.
    pub open spec fn index(self, row: int, column: int) -> int {
        row * self.columns + column
    }

    pub open spec fn at(self, row: int, column: int) -> UniverseCell {
        self.cells[self.index(row, column)]
    }

    /// This universe with the one cell at `row` and `column` replaced.
    pub open spec fn with_cell(self, row: int, column: int, value: UniverseCell) -> UniverseView {
        UniverseView { cells: self.cells.update(self.index(row, column), value), ..self }
    }

    /// Whether there is a live cell at `row` and `column`; there is none beyond
    /// the edges.
    pub open spec fn lives(self, row: int, column: int) -> bool {
        self.holds(row, column) && self.at(row, column) is Alive
    }

    /// One when there is a live cell at `row` and `column`, else zero.
    pub open spec fn tally(self, row: int, column: int) -> int {
        if self.lives(row, column) {
            1
        } else {
            0
        }
    }

    /// How many of the cells that touch the one at `row` and `column` are alive.
    pub open spec fn live_neighbours(self, row: int, column: int) -> int {
        self.tally(row - 1, column - 1) + self.tally(row - 1, column) + self.tally(
            row - 1,
            column + 1,
        ) + self.tally(row, column - 1) + self.tally(row, column + 1) + self.tally(
            row + 1,
            column - 1,
        ) + self.tally(row + 1, column) + self.tally(row + 1, column + 1)
    }

    /// The value of the cell at `row` and `column` one generation later.
    pub open spec fn next_cell(self, row: int, column: int) -> UniverseCell {
        self.at(row, column).successor(self.live_neighbours(row, column))
    }

    /// The universe one generation later.
    pub open spec fn next_generation(self) -> UniverseView {
        UniverseView {
            cells: Seq::new(
                self.cells.len(),
                |i: int| self.next_cell(i / self.columns as int, i % self.columns as int),
            ),
            ..self
        }
    }

    /// The cells with their places, row after row.
    pub open spec fn points(self) -> Seq<UniversePoint> {
        Seq::new(
            self.cells.len(),
            |i: int|
                UniversePoint {
                    row: (i / self.columns as int) as usize,
                    column: (i % self.columns as int) as usize,
                    cell: self.cells[i],
                },
        )
    }
}

/// The place among the cells of a pair of coordinates is in range, and gives the
/// coordinates back.
pub proof fn lemma_index_of_place(view: UniverseView, row: int, column: int)
    requires
        view.wf(),
        view.holds(row, column),
    ensures
        0 <= view.index(row, column) < view.cells.len(),
        view.index(row, column) / view.columns as int == row,
        view.index(row, column) % view.columns as int == column,
{
    let columns = view.columns as int;
    let rows = view.rows as int;
    assert(0 <= row * columns) by (nonlinear_arith)
        requires
            0 <= row,
            0 <= columns,
    ;
    assert(row * columns + columns <= rows * columns) by (nonlinear_arith)
        requires
            row + 1 <= rows,
            0 <= columns,
    ;
    lemma_fundamental_div_mod_converse(row * columns + column, columns, row, column);
}

/// Each place among the cells belongs to a pair of coordinates in range.
pub proof fn lemma_place_of_index(view: UniverseView, i: int)
    requires
        view.wf(),
        0 <= i < view.cells.len(),
    ensures
        view.columns > 0,
        view.holds(i / view.columns as int, i % view.columns as int),
        view.index(i / view.columns as int, i % view.columns as int) == i,
{
    let columns = view.columns as int;
    let rows = view.rows as int;
    assert(columns > 0) by (nonlinear_arith)
        requires
            0 < rows * columns,
            0 <= rows,
            0 <= columns,
    ;
    lemma_fundamental_div_mod(i, columns);
    assert(columns * (i / columns) == (i / columns) * columns) by (nonlinear_arith);
    lemma_multiply_divide_lt(i, columns, rows);
    lemma_div_pos_is_pos(i, columns);
}

/// One cell of a universe together with its place.
#[derive(Debug, Clone, Copy, PartialEq, Eq, Structural)]
pub struct UniversePoint {
    pub row: usize,
    pub column: usize,
    pub cell: UniverseCell,
}

impl UniversePoint {
    pub fn new(row: usize, column: usize, cell: UniverseCell) -> (point: UniversePoint)
        ensures
            point == (UniversePoint { row, column, cell }),
    {
        UniversePoint { row, column, cell }
    }

    pub fn row(&self) -> (row: usize)
        ensures
            row == self.row,
    {
        self.row
    }

    pub fn column(&self) -> (column: usize)
        ensures
            column == self.column,
    {
        self.column
    }

    pub fn cell(&self) -> (cell: &UniverseCell)
        ensures
            *cell == self.cell,
    {
        &self.cell
    }
}

/// A rectangular field of cells.
#[derive(Debug)]
pub struct Universe {
    rows: usize,
    columns: usize,
    cells: Vec<UniverseCell>,
}

impl View for Universe {
    type V = UniverseView;

    closed spec fn view(&self) -> UniverseView {
        UniverseView { rows: self.rows as nat, columns: self.columns as nat, cells: self.cells@ }
    }
}

/// A copy of what a universe held at one moment.
#[derive(Debug)]
pub struct UniverseSnapshot {
    rows: usize,
    columns: usize,
    cells: Vec<UniverseCell>,
}

impl View for UniverseSnapshot {
    type V = UniverseView;

    closed spec fn view(&self) -> UniverseView {
        UniverseView { rows: self.rows as nat, columns: self.columns as nat, cells: self.cells@ }
    }
}

impl UniverseSnapshot {
    pub fn rows(&self) -> (rows: usize)
        ensures
            rows == self@.rows,
    {
        self.rows
    }

    pub fn columns(&self) -> (columns: usize)
        ensures
            columns == self@.columns,
    {
        self.columns
    }

    pub fn cells(&self) -> (cells: &Vec<UniverseCell>)
        ensures
            cells@ == self@.cells,
    {
        &self.cells
    }
}

impl Clone for Universe {
    fn clone(&self) -> (copy: Self)
        ensures
            copy@ == self@,
            copy.wf() == self.wf(),
    {
        Universe { rows: self.rows, columns: self.columns, cells: self.cells.clone() }
    }
}

impl Universe {
    pub open spec fn wf(&self) -> bool {
        &&& self@.wf()
        &&& self@.rows <= usize::MAX
        &&& self@.columns <= usize::MAX
    }

    /// A universe with the given cells, listed row after row.
    pub fn from_cells(rows: usize, columns: usize, cells: Vec<UniverseCell>) -> (universe: Universe)
        requires
            cells@.len() == rows * columns,
        ensures
            universe.wf(),
            universe@ == (UniverseView {
                rows: rows as nat,
                columns: columns as nat,
                cells: cells@,
            }),
    {
        Universe { rows, columns, cells }
    }

    pub fn rows(&self) -> (rows: usize)
        ensures
            rows == self@.rows,
    {
        self.rows
    }

    pub fn columns(&self) -> (columns: usize)
        ensures
            columns == self@.columns,
    {
        self.columns
    }

    fn position(&self, row: usize, column: usize) -> (position: usize)
        requires
            self.wf(),
            self@.holds(row as int, column as int),
        ensures
            position == self@.index(row as int, column as int),
            position < self.cells.len(),
    {
        proof {
            lemma_index_of_place(self@, row as int, column as int);
            assert(self@.cells.len() == self.cells.len());
            assert(0 <= row * self.columns) by (nonlinear_arith);
        }
        row * self.columns + column
    }

    /// The cell at `row` and `column`, with its place.
    pub fn get(&self, row: usize, column: usize) -> (point: UniversePoint)
        requires
            self.wf(),
            self@.holds(row as int, column as int),
        ensures
            point == (UniversePoint { row, column, cell: self@.at(row as int, column as int) }),
    {
        let position: usize = self.position(row, column);
        UniversePoint::new(row, column, self.cells[position])
    }

    /// Replaces the cell at `row` and `column`.
    pub fn set_cell(&mut self, row: usize, column: usize, value: UniverseCell)
        requires
            old(self).wf(),
            old(self)@.holds(row as int, column as int),
        ensures
            final(self).wf(),
            final(self)@ == old(self)@.with_cell(row as int, column as int, value),
    {
        let position: usize = self.position(row, column);
        self.cells.set(position, value);
    }

    /// All cells with their places, row after row.
    pub fn iter_cells(&self) -> (points: Vec<UniversePoint>)
        requires
            self.wf(),
        ensures
            points@ == self@.points(),
    {
        let mut points: Vec<UniversePoint> = Vec::new();
        let mut i: usize = 0;
        while i < self.cells.len()
            invariant
                self.wf(),
                i <= self.cells.len(),
                points@ == self@.points().take(i as int),
            decreases self.cells.len() - i,
        {
            proof {
                lemma_place_of_index(self@, i as int);
            }
            points.push(UniversePoint::new(i / self.columns, i % self.columns, self.cells[i]));
            i += 1;
        }
        points
    }

    /// What this universe holds now.
    pub fn snapshot(&self) -> (snapshot: UniverseSnapshot)
        ensures
            snapshot@ == self@,
    {
        UniverseSnapshot { rows: self.rows, columns: self.columns, cells: self.cells.clone() }
    }

    fn tally(&self, row: usize, column: usize) -> (count: u8)
        requires
            self.wf(),
        ensures
            count == self@.tally(row as int, column as int),
    {
        if row < self.rows && column < self.columns {
            let position: usize = self.position(row, column);
            if self.cells[position].is_alive() {
                return 1;
            }
        }
        0
    }

    fn live_neighbours(&self, row: usize, column: usize) -> (count: u8)
        requires
            self.wf(),
            self@.holds(row as int, column as int),
        ensures
            count == self@.live_neighbours(row as int, column as int),
    {
        // No row or column has the largest index, so it stands for what lies
        // before the first.
        let above: usize = if row > 0 {
            row - 1
        } else {
            usize::MAX
        };
        let left: usize = if column > 0 {
            column - 1
        } else {
            usize::MAX
        };
        let below: usize = row + 1;
        let right: usize = column + 1;
        self.tally(above, left) + self.tally(above, column) + self.tally(above, right)
            + self.tally(row, left) + self.tally(row, right) + self.tally(below, left)
            + self.tally(below, column) + self.tally(below, right)
    }

    /// Advances this universe by one generation. Cells beyond the edges do not
    /// exist, so they never count as neighbours.
    pub fn tick(&mut self)
        requires
            old(self).wf(),
        ensures
            final(self).wf(),
            final(self)@ == old(self)@.next_generation(),
    {
        let mut next: Vec<UniverseCell> = Vec::new();
        let mut i: usize = 0;
        while i < self.cells.len()
            invariant
                self.wf(),
                i <= self.cells.len(),
                next@ == self@.next_generation().cells.take(i as int),
            decreases self.cells.len() - i,
        {
            proof {
                lemma_place_of_index(self@, i as int);
            }
            let neighbours: u8 = self.live_neighbours(i / self.columns, i % self.columns);
            next.push(self.cells[i].evolve(neighbours));
            i += 1;
        }
        self.cells = next;
    }
}

} // verus!
