use vstd::prelude::*;

use crate::board::{BoardBoundaries, GameStatus};
use crate::boundaries_check::{bites_itself, is_snake_biting_itself, is_snake_eating_food};
use crate::direction::{effective_direction, Direction};
use crate::food_generator::{placed_food, FoodGenerator};
use crate::snake::{
    grow_snake, grown_body, moved_body, move_snake_towards_direction, straight_body, Snake,
    SnakePartPosition,
};

verus! {

/// Number of segments of the snake when a round starts.
pub const SNAKE_INITIAL_SIZE: u16 = 4;

/// A tick ends the round: the moved head bit the body or left the board.
pub open spec fn collides(b: BoardBoundaries, moved: Seq<SnakePartPosition>) -> bool {
    bites_itself(moved) || !b.contains_part(moved.last())
}

/// A tick feeds the snake: the moved head is on the food and did not collide.
pub open spec fn eats(b: BoardBoundaries, moved: Seq<SnakePartPosition>, food: SnakePartPosition) -> bool {
    !collides(b, moved) && moved.last() == food
}

/// The status after a tick that moved the body to `moved`: a collision loses,
/// eating goes on, and only otherwise does a pending quit end the round.
pub open spec fn judged_status(
    b: BoardBoundaries,
    moved: Seq<SnakePartPosition>,
    food: SnakePartPosition,
    should_quit: bool,
) -> GameStatus {
    if collides(b, moved) {
        GameStatus::Lost
    } else if moved.last() == food {
        GameStatus::Running
    } else if should_quit {
        GameStatus::Quit
    } else {
        GameStatus::Running
    }
}

/// What one tick changed on the screen, and the status it left.
#[derive(Clone, Copy, Debug)]
pub struct TickReport {
    pub status: GameStatus,
    /// The tail cell to clear, unless it still shows the food.
    pub vacated: Option<SnakePartPosition>,
    /// The new head to draw; none when the round was already over.
    pub head: Option<SnakePartPosition>,
    /// The segment added before the tail when the snake ate.
    pub grown_tail: Option<SnakePartPosition>,
    /// The new food (column, row) when the snake ate.
    pub food: Option<(u16, u16)>,
}

/// Where the tail of a fresh snake heading `d` goes: one cell inside the top
/// left corner, or `SNAKE_INITIAL_SIZE` cells in along the heading's axis when
/// the heading points left or up, so that the body trails the head and lies
/// on the same cells next to the corner whatever the heading.
pub open spec fn start_tail(b: BoardBoundaries, d: Direction) -> SnakePartPosition {
    match d {
        Direction::Left => SnakePartPosition {
            column: (b.starting_col + SNAKE_INITIAL_SIZE) as u16,
            row: (b.starting_row + 1) as u16,
        },
        Direction::Up => SnakePartPosition {
            column: (b.starting_col + 1) as u16,
            row: (b.starting_row + SNAKE_INITIAL_SIZE) as u16,
        },
        _ => SnakePartPosition {
            column: (b.starting_col + 1) as u16,
            row: (b.starting_row + 1) as u16,
        },
    }
}

/// One round: from a fresh snake until it is lost or quit.
pub struct Round {
    pub snake: Snake,
    pub food_column: u16,
    pub food_row: u16,
    pub boundaries: BoardBoundaries,
    pub food_generator: FoodGenerator,
    pub status: GameStatus,
}

impl Round {
    pub open spec fn wf(&self) -> bool {
        &&& self.snake.wf()
        &&& self.food_generator.wf()
        &&& self.food_generator.boundaries() == self.boundaries
    }

    pub open spec fn food(&self) -> SnakePartPosition {
        SnakePartPosition { column: self.food_column, row: self.food_row }
    }

    /// Starts a round on `boundaries`: a straight snake of
    /// `SNAKE_INITIAL_SIZE` segments heading `direction`, lying next to the
    /// top left corner with its tail at `start_tail`, and a first food.
    pub fn new(boundaries: BoardBoundaries, direction: Direction) -> (r: Round)
        requires
            boundaries.food_area_fits(),
        ensures
            r.wf(),
            r.boundaries == boundaries,
            r.status == GameStatus::Running,
            r.snake.current_direction == direction,
            r.snake.parts@ == straight_body(
                direction,
                start_tail(boundaries, direction).column,
                start_tail(boundaries, direction).row,
                SNAKE_INITIAL_SIZE as nat,
            ),
            exists|column: u16, row: u16|
                #[trigger] boundaries.in_food_area(column, row) && (r.food_column, r.food_row)
                    == placed_food(boundaries, r.snake.parts@, column, row),
    {
        let (tail_column, tail_row) = match direction {
            Direction::Left => (boundaries.starting_col + SNAKE_INITIAL_SIZE, boundaries.starting_row + 1),
            Direction::Up => (boundaries.starting_col + 1, boundaries.starting_row + SNAKE_INITIAL_SIZE),
            _ => (boundaries.starting_col + 1, boundaries.starting_row + 1),
        };
        let snake = Snake::new(direction, tail_column, tail_row, SNAKE_INITIAL_SIZE);
        let mut food_generator = FoodGenerator::new(boundaries);
        let (food_column, food_row) = food_generator.draw_random_food(&snake);
        Round {
            snake,
            food_column,
            food_row,
            boundaries,
            food_generator,
            status: GameStatus::Running,
        }
    }

    /// One tick of the round, with the latest requested direction and quit
    /// flag. The direction is applied subject to the axis lock, the snake
    /// moves one cell, and the tick ends the round on a self-bite or on
    /// leaving the board; otherwise, on the food, the snake grows and new food
    /// is drawn; otherwise a set quit flag ends the round. A round that is
    /// over no longer changes.
    pub fn tick(&mut self, direction: Direction, should_quit: bool) -> (report: TickReport)
        requires
            old(self).wf(),
        ensures
            final(self).wf(),
            final(self).boundaries == old(self).boundaries,
            report.status == final(self).status,
            old(self).status != GameStatus::Running ==> {
                &&& final(self).status == old(self).status
                &&& final(self).snake == old(self).snake
                &&& final(self).food() == old(self).food()
                &&& report.vacated is None && report.head is None
                &&& report.grown_tail is None && report.food is None
            },
            old(self).status == GameStatus::Running ==> {
                let b = old(self).boundaries;
                let d = effective_direction(direction, old(self).snake.current_direction);
                let before = old(self).snake.parts@;
                let moved = moved_body(before, d);
                let food = old(self).food();
                &&& final(self).snake.current_direction == d
                &&& final(self).status == judged_status(b, moved, food, should_quit)
                &&& report.vacated == (if before[0] == food {
                    None::<SnakePartPosition>
                } else {
                    Some(before[0])
                })
                &&& report.head == Some(moved.last())
                &&& if eats(b, moved, food) {
                    &&& final(self).snake.parts@ == grown_body(moved, d)
                    &&& final(self).snake.parts@.len() == before.len() + 1
                    &&& report.grown_tail == Some(final(self).snake.parts@[0])
                    &&& report.food == Some((final(self).food_column, final(self).food_row))
                    &&& exists|column: u16, row: u16|
                        #[trigger] b.in_food_area(column, row) && (
                            final(self).food_column,
                            final(self).food_row,
                        ) == placed_food(b, final(self).snake.parts@, column, row)
                } else {
                    &&& final(self).snake.parts@ == moved
                    &&& final(self).snake.parts@.len() == before.len()
                    &&& final(self).food() == food
                    &&& report.grown_tail is None && report.food is None
                }
            },
    {
        if self.status != GameStatus::Running {
            return TickReport {
                status: self.status,
                vacated: None,
                head: None,
                grown_tail: None,
                food: None,
            };
        }
        let vacated = move_snake_towards_direction(
            direction,
            &mut self.snake,
            self.food_column,
            self.food_row,
        );
        let head = self.snake.head();
        let mut grown_tail = None;
        let mut food = None;
        if is_snake_biting_itself(&self.snake) || self.boundaries.is_snake_outside_boundaries(
            &self.snake,
        ) {
            self.status = GameStatus::Lost;
        } else if is_snake_eating_food(&self.snake, self.food_column, self.food_row) {
            grown_tail = Some(grow_snake(&mut self.snake));
            let (food_column, food_row) = self.food_generator.draw_random_food(&self.snake);
            self.food_column = food_column;
            self.food_row = food_row;
            food = Some((food_column, food_row));
        } else if should_quit {
            self.status = GameStatus::Quit;
        }
        TickReport { status: self.status, vacated, head: Some(head), grown_tail, food }
    }
}

/// A tick that neither starts nor ends a round keeps the body's length: one
/// segment is added at the head and one removed at the tail; a tick on which
/// the snake eats lengthens it by exactly one.
pub proof fn length_invariant(parts: Seq<SnakePartPosition>, d: Direction)
    requires
        parts.len() > 0,
    ensures
        moved_body(parts, d).len() == parts.len(),
        grown_body(moved_body(parts, d), d).len() == parts.len() + 1,
{
}

/// With no further input, a straight snake heading right moves its head one
/// column per tick and keeps its length and its heading; as long as its row
/// lies inside the board and the food is on another row, the tick goes on
/// while the new head is left of the right border and is lost once the head
/// reaches that border.
pub proof fn straight_run_right(
    b: BoardBoundaries,
    column: u16,
    row: u16,
    size: nat,
    food: SnakePartPosition,
)
    requires
        size > 0,
        column + size <= u16::MAX,
        b.starting_col < column + size,
        b.starting_row < row < b.end_row(),
        food.row != row,
    ensures
        effective_direction(Direction::Right, Direction::Right) == Direction::Right,
        moved_body(straight_body(Direction::Right, column, row, size), Direction::Right)
            == straight_body(Direction::Right, (column + 1) as u16, row, size),
        moved_body(straight_body(Direction::Right, column, row, size), Direction::Right).last()
            == (SnakePartPosition { column: (column + size) as u16, row }),
        !eats(b, straight_body(Direction::Right, (column + 1) as u16, row, size), food),
        judged_status(b, straight_body(Direction::Right, (column + 1) as u16, row, size), food, false)
            == (if column + size < b.end_col() {
            GameStatus::Running
        } else {
            GameStatus::Lost
        }),
{
    let before = straight_body(Direction::Right, column, row, size);
    let after = straight_body(Direction::Right, (column + 1) as u16, row, size);
    assert(moved_body(before, Direction::Right) =~= after);
    assert(after.last() == SnakePartPosition { column: (column + size) as u16, row });
    assert(!bites_itself(after)) by {
        if bites_itself(after) {
            let i = choose|i: int| 0 <= i < after.len() - 1 && #[trigger] after[i] == after.last();
            assert(after[i].column == column + 1 + i);
        }
    }
}

} // verus!
