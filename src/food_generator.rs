use vstd::prelude::*;

use crate::board::{add_sat, sub_sat, BoardBoundaries};
use crate::snake::{Snake, SnakePartPosition};
use rand::rngs::ThreadRng;
use rand::Rng;

verus! {

/// rand's per-thread generator, carried through as an opaque value.
#[verifier::external_type_specification]
#[verifier::external_body]
pub struct ExThreadRng(rand::rngs::ThreadRng);

/// Relies on rand::thread_rng, which hands out the generator of the current
/// thread; nothing is assumed of it.
pub assume_specification[ rand::thread_rng ]() -> rand::rngs::ThreadRng;

/// Relies on rand's Rng::gen_range: a value of the half-open range
/// `low..high`, which panics only when that range is empty.
#[verifier::external_body]
fn draw_between(rng: &mut ThreadRng, low: u16, high: u16) -> (r: u16)
    requires
        low < high,
    ensures
        low <= r < high,
{
    rng.gen_range(low..high)
}

/// The cell (`column`, `row`) holds a segment of the body.
pub open spec fn occupies(parts: Seq<SnakePartPosition>, column: u16, row: u16) -> bool {
    parts.contains(SnakePartPosition { column, row })
}

/// Where food goes when the drawn cell is taken: two cells to the left of the
/// tail, else to its right, else above it, else below it, the first of these
/// that lies inside the board; the origin corner if none does.
pub open spec fn fallback_food(b: BoardBoundaries, tail: SnakePartPosition) -> (u16, u16) {
    let left = sub_sat(tail.column, 2);
    let right = add_sat(tail.column, 2);
    let above = sub_sat(tail.row, 2);
    let below = add_sat(tail.row, 2);
    if b.contains(left, tail.row) {
        (left, tail.row)
    } else if b.contains(right, tail.row) {
        (right, tail.row)
    } else if b.contains(tail.column, above) {
        (tail.column, above)
    } else if b.contains(tail.column, below) {
        (tail.column, below)
    } else {
        (0, 0)
    }
}

/// The food cell chosen from the drawn cell (`column`, `row`): the drawn cell
/// itself when the body does not hold it, the fallback behind the tail else.
pub open spec fn placed_food(b: BoardBoundaries, parts: Seq<SnakePartPosition>, column: u16, row: u16) -> (u16, u16) {
    if occupies(parts, column, row) {
        fallback_food(b, parts[0])
    } else {
        (column, row)
    }
}

/// Produces food cells on a board: drawn at random from the area two cells in
/// from the border, with a fixed fallback next to the tail when the draw
/// lands on the snake, so that a draw never loops.
pub struct FoodGenerator {
    col_start: u16,
    col_end: u16,
    row_start: u16,
    row_end: u16,
    board_boundaries: BoardBoundaries,
    rng: ThreadRng,
}

impl FoodGenerator {
    /// The drawing bounds are the board's inset area, and that area is not empty.
    pub closed spec fn wf(self) -> bool {
        &&& self.board_boundaries.food_area_fits()
        &&& self.col_start == self.board_boundaries.starting_col + 2
        &&& self.col_end == self.board_boundaries.end_col() - 2
        &&& self.row_start == self.board_boundaries.starting_row + 2
        &&& self.row_end == self.board_boundaries.end_row() - 2
    }

    /// The board the food is placed on.
    pub closed spec fn boundaries(self) -> BoardBoundaries {
        self.board_boundaries
    }

    /// A generator for `board_boundaries`, whose inset area must not be empty.
    pub fn new(board_boundaries: BoardBoundaries) -> (r: Self)
        requires
            board_boundaries.food_area_fits(),
        ensures
            r.wf(),
            r.boundaries() == board_boundaries,
    {
        let col_start = board_boundaries.starting_col + 2;
        let col_end = board_boundaries.ending_col() - 2;

        let row_start = board_boundaries.starting_row + 2;
        let row_end = board_boundaries.ending_row() - 2;

        FoodGenerator {
            col_start,
            col_end,
            row_start,
            row_end,
            board_boundaries,
            rng: rand::thread_rng(),
        }
    }

    /// Draws a food cell at random in the inset area; when the snake holds the
    /// drawn cell, places the food behind the tail instead.
    /// Returns the food's (column, row).
    pub fn draw_random_food(&mut self, snake: &Snake) -> (r: (u16, u16))
        requires
            old(self).wf(),
            snake.wf(),
        ensures
            final(self).wf(),
            final(self).boundaries() == old(self).boundaries(),
            exists|column: u16, row: u16|
                #[trigger] old(self).boundaries().in_food_area(column, row) && r == placed_food(
                    old(self).boundaries(),
                    snake.parts@,
                    column,
                    row,
                ),
    {
        let column = draw_between(&mut self.rng, self.col_start, self.col_end);
        let row = draw_between(&mut self.rng, self.row_start, self.row_end);
        let food = self.place_food(snake, column, row);
        assert(old(self).boundaries().in_food_area(column, row));
        food
    }

    /// The food cell for the drawn cell (`column`, `row`): that cell when the
    /// snake does not hold it, else the fallback behind the tail.
    pub fn place_food(&self, snake: &Snake, column: u16, row: u16) -> (r: (u16, u16))
        requires
            snake.wf(),
        ensures
            r == placed_food(self.boundaries(), snake.parts@, column, row),
    {
        let potential_existing_part = SnakePartPosition { row, column };
        if snake.contains_part(&potential_existing_part) {
            self.draw_food_behind_snake(snake)
        } else {
            (column, row)
        }
    }

    /// The first cell two steps left, right, above or below the tail that is
    /// inside the board, or the origin corner.
    pub fn draw_food_behind_snake(&self, snake: &Snake) -> (r: (u16, u16))
        requires
            snake.wf(),
        ensures
            r == fallback_food(self.boundaries(), snake.parts@[0]),
    {
        let snake_tail = snake.tail();
        let left_snake_col = snake_tail.column.saturating_sub(2);
        let right_snake_col = snake_tail.column.saturating_add(2);
        let above_snake_row = snake_tail.row.saturating_sub(2);
        let below_snake_row = snake_tail.row.saturating_add(2);

        if self.board_boundaries.is_point_within_boundaries(left_snake_col, snake_tail.row) {
            (left_snake_col, snake_tail.row)
        } else if self.board_boundaries.is_point_within_boundaries(right_snake_col, snake_tail.row) {
            (right_snake_col, snake_tail.row)
        } else if self.board_boundaries.is_point_within_boundaries(snake_tail.column, above_snake_row) {
            (snake_tail.column, above_snake_row)
        } else if self.board_boundaries.is_point_within_boundaries(snake_tail.column, below_snake_row) {
            (snake_tail.column, below_snake_row)
        } else {
            (0, 0)
        }
    }
}

/// Food never lands on the snake, except when both the drawn cell and the
/// fallback cell behind the tail are taken.
pub proof fn food_avoids_snake(b: BoardBoundaries, parts: Seq<SnakePartPosition>, column: u16, row: u16)
    requires
        parts.len() > 0,
        !occupies(parts, column, row) || !occupies(
            parts,
            fallback_food(b, parts[0]).0,
            fallback_food(b, parts[0]).1,
        ),
    ensures
        !occupies(parts, placed_food(b, parts, column, row).0, placed_food(b, parts, column, row).1),
{
}

} // verus!
