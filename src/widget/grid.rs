//! The cells of a grid of variable column widths and row heights.
//!
//! A grid holds one child per cell, at most as many as it has columns times
//! rows, laid out in rows from top to bottom, each row from left to right.
//! `L` is the type of a width or height; the grid only keeps them.
use vstd::prelude::*;

verus! {

/// The children, column widths and row heights of a grid.
pub struct GridCells<C, L> {
    children: Vec<C>,
    column_widths: Vec<L>,
    row_heights: Vec<L>,
}

/// The number of cells of a grid with the given numbers of columns and rows.
pub open spec fn cell_count(columns: nat, rows: nat) -> nat {
    columns * rows
}

impl<C, L> GridCells<C, L> {
    /// The children, row by row.
    pub closed spec fn children_view(&self) -> Seq<C> {
        self.children@
    }

    /// The widths of the columns, from left to right.
    pub closed spec fn column_widths_view(&self) -> Seq<L> {
        self.column_widths@
    }

    /// The heights of the rows, from top to bottom.
    pub closed spec fn row_heights_view(&self) -> Seq<L> {
        self.row_heights@
    }

    /// The number of cells: columns times rows.
    pub open spec fn capacity(&self) -> nat {
        cell_count(self.column_widths_view().len(), self.row_heights_view().len())
    }

    /// No cell holds more than one child.
    pub open spec fn wf(&self) -> bool {
        self.children_view().len() <= self.capacity()
    }

    /// A grid of the given columns and rows, keeping the first children up to
    /// the number of cells and dropping the rest.
    pub fn from_vec(children: Vec<C>, column_widths: Vec<L>, row_heights: Vec<L>) -> (r: Self)
        ensures
            r.wf(),
            r.column_widths_view() == column_widths@,
            r.row_heights_view() == row_heights@,
            r.children_view() == children@.take(
                vstd::math::min(
                    children@.len() as int,
                    cell_count(column_widths@.len(), row_heights@.len()) as int,
                ),
            ),
    {
        let ghost given = children@;
        let ghost count = cell_count(column_widths@.len(), row_heights@.len()) as int;
        let mut children = children;
        match column_widths.len().checked_mul(row_heights.len()) {
            Some(cells) => {
                assert(cells == count);
                if cells < children.len() {
                    children.truncate(cells);
                    assert(children@ =~= given.take(count));
                } else {
                    assert(children@ =~= given.take(given.len() as int));
                }
            },
            None => {
                assert(count > children.len());
                assert(children@ =~= given.take(given.len() as int));
            },
        }
        GridCells { children, column_widths, row_heights }
    }

    /// An empty grid.
    pub fn new() -> (r: Self)
        ensures
            r.wf(),
            r.children_view().len() == 0,
            r.column_widths_view().len() == 0,
            r.row_heights_view().len() == 0,
    {
        GridCells { children: Vec::new(), column_widths: Vec::new(), row_heights: Vec::new() }
    }

    /// An empty grid with room reserved for the given columns and rows.
    pub fn with_capacity(columns: usize, rows: usize) -> (r: Self)
        requires
            columns * rows <= usize::MAX,
        ensures
            r.wf(),
            r.children_view().len() == 0,
            r.column_widths_view().len() == 0,
            r.row_heights_view().len() == 0,
    {
        GridCells {
            children: Vec::with_capacity(rows * columns),
            column_widths: Vec::with_capacity(columns),
            row_heights: Vec::with_capacity(rows),
        }
    }

    /// Whether another child fits in an empty cell.
    pub fn has_room(&self) -> (r: bool)
        ensures
            r == (self.children_view().len() < self.capacity()),
    {
        let columns = self.column_widths.len();
        let rows = self.row_heights.len();
        if columns == 0 {
            false
        } else {
            let full_rows = self.children.len() / columns;
            proof {
                lemma_fits_below(self.children.len() as int, columns as int, rows as int);
            }
            full_rows < rows
        }
    }

    /// Adds a child in the next empty cell; where every cell is taken, the
    /// child is dropped.
    pub fn push(self, child: C) -> (r: Self)
        requires
            self.wf(),
        ensures
            r.wf(),
            r.column_widths_view() == self.column_widths_view(),
            r.row_heights_view() == self.row_heights_view(),
            r.children_view() == if self.children_view().len() < self.capacity() {
                self.children_view().push(child)
            } else {
                self.children_view()
            },
    {
        let mut grid = self;
        if grid.has_room() {
            grid.children.push(child);
        }
        grid
    }

    /// Adds a column of the given width.
    pub fn push_column_width(self, width: L) -> (r: Self)
        requires
            self.wf(),
        ensures
            r.wf(),
            r.children_view() == self.children_view(),
            r.column_widths_view() == self.column_widths_view().push(width),
            r.row_heights_view() == self.row_heights_view(),
    {
        let mut grid = self;
        grid.column_widths.push(width);
        proof {
            lemma_more_cells(
                self.column_widths@.len() as int,
                self.row_heights@.len() as int,
            );
        }
        grid
    }

    /// Adds a row of the given height.
    pub fn push_row_height(self, height: L) -> (r: Self)
        requires
            self.wf(),
        ensures
            r.wf(),
            r.children_view() == self.children_view(),
            r.column_widths_view() == self.column_widths_view(),
            r.row_heights_view() == self.row_heights_view().push(height),
    {
        let mut grid = self;
        grid.row_heights.push(height);
        proof {
            lemma_more_cells(
                self.row_heights@.len() as int,
                self.column_widths@.len() as int,
            );
        }
        grid
    }

    /// Fills every empty cell with a child that `filler` makes.
    pub fn fill<F: Fn() -> C>(self, filler: F) -> (r: Self)
        requires
            self.wf(),
            self.capacity() <= usize::MAX,
            filler.requires(()),
        ensures
            r.wf(),
            r.children_view().len() == self.capacity(),
            r.children_view().take(self.children_view().len() as int) == self.children_view(),
            forall|i: int|
                self.children_view().len() <= i < r.children_view().len() ==> filler.ensures(
                    (),
                    #[trigger] r.children_view()[i],
                ),
            r.column_widths_view() == self.column_widths_view(),
            r.row_heights_view() == self.row_heights_view(),
    {
        let mut grid = self;
        let total = grid.column_widths.len() * grid.row_heights.len();
        while grid.children.len() < total
            invariant
                total == self.capacity(),
                self.children_view().len() <= grid.children@.len() <= total,
                grid.children@.take(self.children_view().len() as int) == self.children_view(),
                grid.column_widths@ == self.column_widths_view(),
                grid.row_heights@ == self.row_heights_view(),
                filler.requires(()),
                forall|i: int|
                    self.children_view().len() <= i < grid.children@.len() ==> filler.ensures(
                        (),
                        #[trigger] grid.children@[i],
                    ),
            decreases total - grid.children@.len(),
        {
            let ghost before = grid.children@;
            let child = filler();
            grid.children.push(child);
            assert(grid.children@.take(self.children_view().len() as int) =~= before.take(
                self.children_view().len() as int,
            ));
        }
        grid
    }

    /// The children, row by row, to be handed events.
    pub fn children_mut(&mut self) -> (r: &mut Vec<C>)
        ensures
            r@ == old(self).children_view(),
    {
        &mut self.children
    }

    /// The children, row by row.
    pub fn children(&self) -> (r: &Vec<C>)
        ensures
            r@ == self.children_view(),
    {
        &self.children
    }

    /// The widths of the columns, from left to right.
    pub fn column_widths(&self) -> (r: &Vec<L>)
        ensures
            r@ == self.column_widths_view(),
    {
        &self.column_widths
    }

    /// The heights of the rows, from top to bottom.
    pub fn row_heights(&self) -> (r: &Vec<L>)
        ensures
            r@ == self.row_heights_view(),
    {
        &self.row_heights
    }
}

/// `n < columns * rows` exactly when `n / columns < rows`.
proof fn lemma_fits_below(n: int, columns: int, rows: int)
    requires
        n >= 0,
        columns > 0,
        rows >= 0,
    ensures
        (n < columns * rows) == (n / columns < rows),
{
    let q = n / columns;
    assert(n == columns * q + n % columns) by (nonlinear_arith)
        requires columns > 0, q == n / columns;
    assert(0 <= n % columns < columns) by (nonlinear_arith)
        requires columns > 0;
    if q < rows {
        assert(columns * q + columns <= columns * rows) by (nonlinear_arith)
            requires q < rows, columns > 0;
    } else {
        assert(columns * rows <= columns * q) by (nonlinear_arith)
            requires q >= rows, columns > 0;
    }
}

/// One more column (or row) gives at least as many cells.
proof fn lemma_more_cells(a: int, b: int)
    requires
        a >= 0,
        b >= 0,
    ensures
        a * b <= (a + 1) * b,
        b * a <= b * (a + 1),
{
    assert(a * b <= (a + 1) * b) by (nonlinear_arith)
        requires a >= 0, b >= 0;
    assert(b * a <= b * (a + 1)) by (nonlinear_arith)
        requires a >= 0, b >= 0;
}

} // verus!
