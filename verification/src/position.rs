//! Where a caret stands on a wrapped input line.
//!
//! An input line starts right after a prompt of `prompt_width` cells and runs
//! on over as many rows of `width` cells as it needs. The functions here turn
//! an offset into the line into a cell of the terminal and a cell back into
//! the row where the line starts.

use vstd::prelude::*;

verus! {

/// The largest coordinate that a terminal reports.
pub const MAX_COORDINATE: i64 = 0x7fff_ffff;

/// A cell of the terminal as a pair of mathematical integers.
pub struct Cell {
    pub x: int,
    pub y: int,
}

/// A cell of the terminal: `x` is the column, `y` the row.
#[derive(Clone, Copy, Debug, PartialEq, Eq, Structural)]
pub struct Position {
    pub x: i64,
    pub y: i64,
}

impl View for Position {
    type V = Cell;

    open spec fn view(&self) -> Cell {
        Cell { x: self.x as int, y: self.y as int }
    }
}

/// What the terminal reports before an operation: its number of columns and
/// the cell under its cursor.
#[derive(Clone, Copy, Debug, PartialEq, Eq, Structural)]
pub struct Screen {
    pub width: i64,
    pub cursor: Position,
}

impl Screen {
    /// The screen has at least one column and its cursor stands on it.
    pub open spec fn wf(self) -> bool {
        &&& 0 < self.width <= MAX_COORDINATE
        &&& 0 <= self.cursor.x < self.width
        &&& 0 <= self.cursor.y <= MAX_COORDINATE
    }

    /// Tests `wf` at run time.
    pub fn is_valid(&self) -> (b: bool)
        ensures
            b == self.wf(),
    {
        0 < self.width && self.width <= MAX_COORDINATE && 0 <= self.cursor.x && self.cursor.x
            < self.width && 0 <= self.cursor.y && self.cursor.y <= MAX_COORDINATE
    }
}

/// How many rows below the start of the line the caret of `offset` stands.
/// A line that ends exactly at the right margin does not open a new row.
pub open spec fn row_offset(width: int, prompt_width: int, offset: int) -> int {
    if offset <= width - prompt_width {
        0
    } else {
        (offset - (width - prompt_width) + width - 1) / width
    }
}

/// The column of the caret of `offset`.
pub open spec fn column(width: int, prompt_width: int, offset: int) -> int {
    if offset <= width - prompt_width {
        prompt_width + offset
    } else {
        (offset - (width - prompt_width)) % width
    }
}

/// The cell of the caret of `offset` in a line that starts on `origin_row`.
pub open spec fn cell_of(width: int, prompt_width: int, origin_row: int, offset: int) -> Cell {
    Cell {
        x: column(width, prompt_width, offset),
        y: origin_row + row_offset(width, prompt_width, offset),
    }
}

/// The row where the line starts, given the row of the caret of `offset`.
pub open spec fn origin_row_of(width: int, prompt_width: int, row: int, offset: int) -> int {
    row - row_offset(width, prompt_width, offset)
}

/// The cell one step to the left of `at`: from column 0 the step leads to the
/// last column of the row above.
pub open spec fn cell_left(width: int, at: Cell) -> Cell {
    if at.x == 0 {
        Cell { x: width - 1, y: at.y - 1 }
    } else {
        Cell { x: at.x - 1, y: at.y }
    }
}

/// The cell one step to the right of `at`: from the last column the step leads
/// to column 0 of the row below.
pub open spec fn cell_right(width: int, at: Cell) -> Cell {
    if at.x == width - 1 {
        Cell { x: 0, y: at.y + 1 }
    } else {
        Cell { x: at.x + 1, y: at.y }
    }
}

/// The cell `steps` steps to the right of `at`.
pub open spec fn cell_forward(width: int, at: Cell, steps: nat) -> Cell
    decreases steps,
{
    if steps == 0 {
        at
    } else {
        cell_forward(width, cell_right(width, at), (steps - 1) as nat)
    }
}

/// The inputs on which the arithmetic below stays within machine integers.
pub open spec fn in_reach(width: int, prompt_width: int, row: int, offset: int) -> bool {
    &&& 0 < width <= MAX_COORDINATE
    &&& 0 <= prompt_width
    &&& 0 <= offset
    &&& prompt_width + offset <= MAX_COORDINATE
    &&& -MAX_COORDINATE <= row <= MAX_COORDINATE
}

/// Computes `row_offset`.
pub fn rows_below_origin(width: i64, prompt_width: i64, offset: i64) -> (rows: i64)
    requires
        in_reach(width as int, prompt_width as int, 0, offset as int),
    ensures
        rows == row_offset(width as int, prompt_width as int, offset as int),
        0 <= rows <= MAX_COORDINATE,
{
    if offset <= width - prompt_width {
        0
    } else {
        let over: i64 = offset - (width - prompt_width);
        let rows: i64 = (over + width - 1) / width;
        proof {
            lemma_row_offset_bounds(width as int, prompt_width as int, offset as int);
        }
        rows
    }
}

/// The cell of the caret of `offset` in a line that starts on `origin_row`.
pub fn position_of(width: i64, prompt_width: i64, origin_row: i64, offset: i64) -> (at: Position)
    requires
        in_reach(width as int, prompt_width as int, origin_row as int, offset as int),
    ensures
        at@ == cell_of(width as int, prompt_width as int, origin_row as int, offset as int),
{
    let rows: i64 = rows_below_origin(width, prompt_width, offset);
    if offset <= width - prompt_width {
        Position { x: prompt_width + offset, y: origin_row }
    } else {
        let over: i64 = offset - (width - prompt_width);
        Position { x: over % width, y: origin_row + rows }
    }
}

/// The row where the line starts, given the row of the caret of `offset`.
pub fn origin_row(width: i64, prompt_width: i64, row: i64, offset: i64) -> (origin: i64)
    requires
        in_reach(width as int, prompt_width as int, row as int, offset as int),
    ensures
        origin == origin_row_of(width as int, prompt_width as int, row as int, offset as int),
{
    row - rows_below_origin(width, prompt_width, offset)
}

impl Screen {
    /// The cell one step to the left of the cursor.
    pub fn left(&self) -> (at: Position)
        requires
            self.wf(),
        ensures
            at@ == cell_left(self.width as int, self.cursor@),
    {
        if self.cursor.x == 0 {
            Position { x: self.width - 1, y: self.cursor.y - 1 }
        } else {
            Position { x: self.cursor.x - 1, y: self.cursor.y }
        }
    }

    /// The cell one step to the right of the cursor.
    pub fn right(&self) -> (at: Position)
        requires
            self.wf(),
        ensures
            at@ == cell_right(self.width as int, self.cursor@),
    {
        if self.cursor.x == self.width - 1 {
            Position { x: 0, y: self.cursor.y + 1 }
        } else {
            Position { x: self.cursor.x + 1, y: self.cursor.y }
        }
    }

    /// The cell `steps` steps to the right of the cursor.
    pub fn forward(&self, steps: i64) -> (at: Position)
        requires
            self.wf(),
            0 <= steps <= MAX_COORDINATE,
        ensures
            at@ == cell_forward(self.width as int, self.cursor@, steps as nat),
    {
        let cells: i64 = self.cursor.x + steps;
        proof {
            lemma_forward_wraps(self.width as int, self.cursor@, steps as nat);
            assert(0 <= cells / self.width <= cells) by (nonlinear_arith)
                requires
                    0 < self.width,
                    0 <= cells,
            ;
        }
        Position { x: cells % self.width, y: self.cursor.y + cells / self.width }
    }
}

/// Steps to the right fill the row and go on at the start of the next one.
pub proof fn lemma_forward_wraps(width: int, at: Cell, steps: nat)
    requires
        0 < width,
        0 <= at.x < width,
    ensures
        cell_forward(width, at, steps) == (Cell {
            x: (at.x + steps) % width,
            y: at.y + (at.x + steps) / width,
        }),
    decreases steps,
{
    if steps == 0 {
        assert(at.x % width == at.x && at.x / width == 0) by (nonlinear_arith)
            requires
                0 < width,
                0 <= at.x < width,
        ;
    } else {
        let next = cell_right(width, at);
        lemma_forward_wraps(width, next, (steps - 1) as nat);
        if at.x == width - 1 {
            let rest = steps - 1;
            assert((width + rest) % width == rest % width && (width + rest) / width == 1 + rest
                / width) by (nonlinear_arith)
                requires
                    0 < width,
                    0 <= rest,
            ;
        }
    }
}

/// The row of the start of the line, found from the caret, is the row from
/// which the caret is found again.
pub proof fn lemma_origin_round_trip(width: int, prompt_width: int, row: int, offset: int)
    ensures
        cell_of(width, prompt_width, origin_row_of(width, prompt_width, row, offset), offset).y
            == row,
        origin_row_of(width, prompt_width, cell_of(width, prompt_width, row, offset).y, offset)
            == row,
{
}

/// Text printed right after the prompt leaves the cursor on the cell of its
/// end, unless it ends exactly at the right margin.
pub proof fn lemma_cell_of_follows_printing(width: int, prompt_width: int, row: int, offset: int)
    requires
        0 <= prompt_width < width,
        0 <= offset,
        offset == 0 || (prompt_width + offset) % width != 0,
    ensures
        cell_forward(width, Cell { x: prompt_width, y: row }, offset as nat) == cell_of(
            width,
            prompt_width,
            row,
            offset,
        ),
{
    lemma_forward_wraps(width, Cell { x: prompt_width, y: row }, offset as nat);
    let cells = prompt_width + offset;
    if offset <= width - prompt_width {
        assert(width % width == 0) by (nonlinear_arith)
            requires
                0 < width,
        ;
        assert(cells % width == cells && cells / width == 0) by (nonlinear_arith)
            requires
                0 <= cells < width,
        ;
    } else {
        let over = offset - (width - prompt_width);
        assert(cells % width == over % width && cells / width == (over + width - 1) / width)
            by (nonlinear_arith)
            requires
                0 < width,
                0 < over,
                cells == over + width,
                cells % width != 0,
        ;
    }
}

/// A step to the right and a step to the left lead back to the cell they
/// started from.
pub proof fn lemma_left_undoes_right(width: int, at: Cell)
    requires
        0 < width,
        0 <= at.x < width,
    ensures
        cell_left(width, cell_right(width, at)) == at,
        cell_left(width, cell_forward(width, at, 1)) == at,
{
    reveal_with_fuel(cell_forward, 2);
}

/// Past the first row the row offset is the number of full rows that the
/// cells behind the first row take up, rounded up.
pub proof fn lemma_row_offset_rounds_up(width: int, prompt_width: int, offset: int)
    requires
        0 < width,
        offset > width - prompt_width,
    ensures
        (row_offset(width, prompt_width, offset) - 1) * width < offset - (width - prompt_width)
            <= row_offset(width, prompt_width, offset) * width,
{
    let over = offset - (width - prompt_width);
    let rows = (over + width - 1) / width;
    assert((rows - 1) * width < over <= rows * width) by (nonlinear_arith)
        requires
            0 < width,
            0 < over,
            rows == (over + width - 1) / width,
    ;
}

/// The row offset is never negative and never more than the cells before the
/// caret would fill.
pub proof fn lemma_row_offset_bounds(width: int, prompt_width: int, offset: int)
    requires
        0 < width,
        0 <= prompt_width,
        0 <= offset,
    ensures
        0 <= row_offset(width, prompt_width, offset) <= prompt_width + offset,
{
    if offset > width - prompt_width {
        let over = offset - (width - prompt_width);
        assert(0 <= (over + width - 1) / width <= over + width - 1) by (nonlinear_arith)
            requires
                0 < width,
                0 < over,
        ;
    }
}

} // verus!
