use vstd::prelude::*;

use crate::snake::{Snake, SnakePartPosition};

verus! {

/// The rectangle the snake lives in. Its border is excluded: a cell is inside
/// only when it lies strictly between the starting and the ending column, and
/// strictly between the starting and the ending row.
#[derive(Copy, Clone, Debug)]
pub struct BoardBoundaries {
    pub starting_col: u16,
    pub starting_row: u16,
    /// Width: the cell at column `starting_col + col_size` is on the border.
    pub col_size: u16,
    /// Height: the cell at row `starting_row + row_size` is on the border.
    pub row_size: u16,
}

/// How a round ends, or that it goes on.
#[derive(Clone, Copy, Debug, PartialEq, Eq, Structural)]
pub enum GameStatus {
    Running,
    Quit,
    Lost,
}

/// `a + b`, or the largest `u16` where that does not fit.
pub open spec fn add_sat(a: u16, b: u16) -> u16 {
    if a + b > u16::MAX {
        u16::MAX
    } else {
        (a + b) as u16
    }
}

/// `a - b`, or zero where that would be negative.
pub open spec fn sub_sat(a: u16, b: u16) -> u16 {
    if a < b {
        0
    } else {
        (a - b) as u16
    }
}

impl BoardBoundaries {
    pub open spec fn end_col(self) -> u16 {
        add_sat(self.starting_col, self.col_size)
    }

    pub open spec fn end_row(self) -> u16 {
        add_sat(self.starting_row, self.row_size)
    }

    /// The cell lies strictly inside the border.
    pub open spec fn contains(self, column: u16, row: u16) -> bool {
        &&& self.starting_col < column < self.end_col()
        &&& self.starting_row < row < self.end_row()
    }

    pub open spec fn contains_part(self, p: SnakePartPosition) -> bool {
        self.contains(p.column, p.row)
    }

    /// The inset area that food is drawn from, two cells in from every
    /// side, holds at least one cell.
    pub open spec fn food_area_fits(self) -> bool {
        &&& self.starting_col + 2 < self.end_col() - 2
        &&& self.starting_row + 2 < self.end_row() - 2
    }

    /// The cell lies in the inset area that food is drawn from.
    pub open spec fn in_food_area(self, column: u16, row: u16) -> bool {
        &&& self.starting_col + 2 <= column < self.end_col() - 2
        &&& self.starting_row + 2 <= row < self.end_row() - 2
    }

    pub fn ending_col(self) -> (r: u16)
        ensures
            r == self.end_col(),
    {
        self.starting_col.saturating_add(self.col_size)
    }

    pub fn ending_row(self) -> (r: u16)
        ensures
            r == self.end_row(),
    {
        self.starting_row.saturating_add(self.row_size)
    }

    /// Whether the snake's head touches or has crossed the border.
    pub fn is_snake_outside_boundaries(self, snake: &Snake) -> (r: bool)
        requires
            snake.wf(),
        ensures
            r == !self.contains_part(snake.head_spec()),
    {
        let snake_head = snake.head();

        let ending_col = self.ending_col();
        let ending_row = self.ending_row();

        snake_head.column <= self.starting_col || snake_head.column >= ending_col
            || snake_head.row <= self.starting_row || snake_head.row >= ending_row
    }

    /// Whether (`column`, `row`) lies strictly inside the border.
    pub fn is_point_within_boundaries(self, column: u16, row: u16) -> (r: bool)
        ensures
            r == self.contains(column, row),
    {
        let ending_col = self.ending_col();
        let ending_row = self.ending_row();

        column > self.starting_col && column < ending_col && row > self.starting_row && row
            < ending_row
    }
}

impl BoardBoundaries {
    /// Whether the board is large enough for a food generator.
    pub fn has_room_for_food(self) -> (r: bool)
        ensures
            r == self.food_area_fits(),
    {
        let ending_col = self.ending_col();
        let ending_row = self.ending_row();
        self.starting_col as u32 + 4 < ending_col as u32 && self.starting_row as u32 + 4 < ending_row as u32
    }
}

impl Default for BoardBoundaries {
    /// A board of 40 columns by 10 rows in the top left corner of the screen.
    fn default() -> (r: BoardBoundaries)
        ensures
            r.starting_col == 0,
            r.starting_row == 0,
            r.col_size == 40,
            r.row_size == 10,
    {
        BoardBoundaries { starting_col: 0, starting_row: 0, col_size: 40, row_size: 10 }
    }
}

} // verus!
