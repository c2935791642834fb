use vstd::prelude::*;

use crate::direction::{effective_direction, opposite, Direction};
use std::collections::VecDeque;

verus! {

/// A grid cell occupied by one segment of the snake.
#[derive(Clone, Copy, Debug, PartialEq, Eq, Structural)]
pub struct SnakePartPosition {
    pub row: u16,
    pub column: u16,
}

/// The snake's body, tail first and head last, with its current heading.
#[derive(Debug)]
pub struct Snake {
    pub current_direction: Direction,
    pub parts: VecDeque<SnakePartPosition>,
}

/// One more, stopping at the largest coordinate.
pub open spec fn inc_sat(v: u16) -> u16 {
    if v == u16::MAX {
        v
    } else {
        (v + 1) as u16
    }
}

/// One less, stopping at zero.
pub open spec fn dec_sat(v: u16) -> u16 {
    if v == 0 {
        v
    } else {
        (v - 1) as u16
    }
}

/// The cell one step from `p` towards `d`; coordinates saturate at the edges
/// of the `u16` range instead of wrapping.
pub open spec fn step(p: SnakePartPosition, d: Direction) -> SnakePartPosition {
    match d {
        Direction::Right => SnakePartPosition { column: inc_sat(p.column), row: p.row },
        Direction::Down => SnakePartPosition { column: p.column, row: inc_sat(p.row) },
        Direction::Left => SnakePartPosition { column: dec_sat(p.column), row: p.row },
        Direction::Up => SnakePartPosition { column: p.column, row: dec_sat(p.row) },
    }
}

/// The cell `i` steps from (`column`, `row`) towards `d`.
pub open spec fn steps_from(d: Direction, column: u16, row: u16, i: int) -> SnakePartPosition {
    match d {
        Direction::Right => SnakePartPosition { column: (column + i) as u16, row },
        Direction::Left => SnakePartPosition { column: (column - i) as u16, row },
        Direction::Down => SnakePartPosition { column, row: (row + i) as u16 },
        Direction::Up => SnakePartPosition { column, row: (row - i) as u16 },
    }
}

/// The cells `0` to `size - 1` steps from (`column`, `row`) towards `d`
/// exist: they stay within the `u16` range.
pub open spec fn straight_fits(d: Direction, column: u16, row: u16, size: int) -> bool {
    match d {
        Direction::Right => column + size - 1 <= u16::MAX,
        Direction::Left => column >= size - 1,
        Direction::Down => row + size - 1 <= u16::MAX,
        Direction::Up => row >= size - 1,
    }
}

/// A straight body of `size` segments: the tail at the origin, and each
/// further segment one step towards `d` from the one before it, so that the
/// body trails the head.
pub open spec fn straight_body(d: Direction, column: u16, row: u16, size: nat) -> Seq<
    SnakePartPosition,
> {
    Seq::new(size, |i: int| steps_from(d, column, row, i))
}

/// The body after one move: the tail segment leaves and a new head is pushed
/// one step from the old head along the heading `d`.
pub open spec fn moved_body(parts: Seq<SnakePartPosition>, d: Direction) -> Seq<SnakePartPosition> {
    parts.subrange(1, parts.len() as int).push(step(parts.last(), d))
}

/// The body after growing: a segment is put before the tail, one step
/// against the heading `d`.
pub open spec fn grown_body(parts: Seq<SnakePartPosition>, d: Direction) -> Seq<SnakePartPosition> {
    seq![step(parts[0], opposite(d))] + parts
}

impl Snake {
    /// A snake always has a head and a tail.
    pub open spec fn wf(&self) -> bool {
        self.parts@.len() > 0
    }

    pub open spec fn head_spec(&self) -> SnakePartPosition {
        self.parts@.last()
    }

    /// Builds a straight snake of `size` segments whose tail is at
    /// (`snake_starting_col`, `snake_starting_row`) and whose head lies
    /// `size - 1` steps from it towards `direction`; the body trails the head.
    pub fn new(direction: Direction, snake_starting_col: u16, snake_starting_row: u16, size: u16) -> (r: Snake)
        requires
            size > 0,
            straight_fits(direction, snake_starting_col, snake_starting_row, size as int),
        ensures
            r.wf(),
            r.current_direction == direction,
            r.parts@ == straight_body(direction, snake_starting_col, snake_starting_row, size as nat),
            r.parts@[0] == (SnakePartPosition { column: snake_starting_col, row: snake_starting_row }),
            forall|i: int| 0 <= i < size - 1 ==> r.parts@[i + 1] == step(#[trigger] r.parts@[i], direction),
    {
        let mut snake = Snake { current_direction: direction, parts: VecDeque::new() };
        let mut i: u16 = 0;
        while i < size
            invariant
                i <= size,
                straight_fits(direction, snake_starting_col, snake_starting_row, size as int),
                snake.current_direction == direction,
                snake.parts@ == straight_body(direction, snake_starting_col, snake_starting_row, i as nat),
            decreases size - i,
        {
            let part = match direction {
                Direction::Right => SnakePartPosition { column: snake_starting_col + i, row: snake_starting_row },
                Direction::Left => SnakePartPosition { column: snake_starting_col - i, row: snake_starting_row },
                Direction::Down => SnakePartPosition { column: snake_starting_col, row: snake_starting_row + i },
                Direction::Up => SnakePartPosition { column: snake_starting_col, row: snake_starting_row - i },
            };
            snake.parts.push_back(part);
            i = i + 1;
            assert(snake.parts@ =~= straight_body(direction, snake_starting_col, snake_starting_row, i as nat));
        }
        assert forall|i: int| 0 <= i < size - 1 implies snake.parts@[i + 1] == step(
            #[trigger] snake.parts@[i],
            direction,
        ) by {
            assert(snake.parts@[i] == steps_from(direction, snake_starting_col, snake_starting_row, i));
            assert(snake.parts@[i + 1] == steps_from(direction, snake_starting_col, snake_starting_row, i + 1));
        }
        snake
    }

    /// The head segment, the last of the body.
    pub fn head(&self) -> (r: SnakePartPosition)
        requires
            self.wf(),
        ensures
            r == self.head_spec(),
    {
        self.parts[self.parts.len() - 1]
    }

    /// Whether some segment of the body is at `part`.
    pub fn contains_part(&self, part: &SnakePartPosition) -> (r: bool)
        ensures
            r == self.parts@.contains(*part),
    {
        let mut i: usize = 0;
        while i < self.parts.len()
            invariant
                i <= self.parts@.len(),
                forall|j: int| 0 <= j < i ==> self.parts@[j] != *part,
            decreases self.parts@.len() - i,
        {
            if self.parts[i] == *part {
                return true;
            }
            i = i + 1;
        }
        false
    }

    /// The tail segment, the first of the body.
    pub fn tail(&self) -> (r: SnakePartPosition)
        requires
            self.wf(),
        ensures
            r == self.parts@[0],
    {
        self.parts[0]
    }
}

/// The cell one step from `snake_end_position` towards `direction`.
pub fn get_snake_next_end_position(snake_end_position: &SnakePartPosition, direction: Direction) -> (r: SnakePartPosition)
    ensures
        r == step(*snake_end_position, direction),
{
    match direction {
        Direction::Right => SnakePartPosition {
            column: snake_end_position.column.saturating_add(1),
            row: snake_end_position.row,
        },
        Direction::Down => SnakePartPosition {
            column: snake_end_position.column,
            row: snake_end_position.row.saturating_add(1),
        },
        Direction::Left => SnakePartPosition {
            column: snake_end_position.column.saturating_sub(1),
            row: snake_end_position.row,
        },
        Direction::Up => SnakePartPosition {
            column: snake_end_position.column,
            row: snake_end_position.row.saturating_sub(1),
        },
    }
}

/// Takes `direction` as the new heading unless it lies on the axis the snake
/// already moves along.
pub fn update_snake_direction_with_new_direction(direction: Direction, snake: &mut Snake)
    ensures
        final(snake).current_direction == effective_direction(direction, old(snake).current_direction),
        final(snake).parts@ == old(snake).parts@,
{
    let should_ignore_new_direction = direction.are_both_on_x_axis(snake.current_direction)
        || direction.are_both_on_y_axis(snake.current_direction);

    if !should_ignore_new_direction {
        snake.current_direction = direction;
    }
}

/// Moves the snake one cell: applies the requested direction (subject to the
/// axis lock), drops the tail and pushes a new head one step from the old one.
/// Returns the vacated tail cell when it is to be cleared from the screen,
/// that is unless it coincides with the food at (`food_column`, `food_row`).
pub fn move_snake_towards_direction(
    direction: Direction,
    snake: &mut Snake,
    food_column: u16,
    food_row: u16,
) -> (vacated: Option<SnakePartPosition>)
    requires
        old(snake).wf(),
    ensures
        final(snake).wf(),
        final(snake).current_direction == effective_direction(direction, old(snake).current_direction),
        final(snake).parts@ == moved_body(old(snake).parts@, final(snake).current_direction),
        final(snake).parts@.len() == old(snake).parts@.len(),
        vacated == (if old(snake).parts@[0] == (SnakePartPosition { column: food_column, row: food_row }) {
            None::<SnakePartPosition>
        } else {
            Some(old(snake).parts@[0])
        }),
{
    update_snake_direction_with_new_direction(direction, snake);

    let snake_head_position = snake.head();
    let snake_new_end_position = get_snake_next_end_position(&snake_head_position, snake.current_direction);

    let snake_tail_position = snake.parts.pop_front().unwrap();
    snake.parts.push_back(snake_new_end_position);
    assert(snake.parts@ =~= moved_body(old(snake).parts@, snake.current_direction));

    if snake_tail_position.column != food_column || snake_tail_position.row != food_row {
        Some(snake_tail_position)
    } else {
        None
    }
}

/// Lengthens the snake by one segment placed before its tail, one cell
/// against the current heading; the head does not move. Returns the new tail.
pub fn grow_snake(snake: &mut Snake) -> (new_tail: SnakePartPosition)
    requires
        old(snake).wf(),
    ensures
        final(snake).wf(),
        final(snake).current_direction == old(snake).current_direction,
        final(snake).parts@ == grown_body(old(snake).parts@, old(snake).current_direction),
        final(snake).parts@.len() == old(snake).parts@.len() + 1,
        new_tail == final(snake).parts@[0],
{
    let tail_position = snake.tail();
    let new_tail = match snake.current_direction {
        Direction::Down => SnakePartPosition {
            column: tail_position.column,
            row: tail_position.row.saturating_sub(1),
        },
        Direction::Up => SnakePartPosition {
            column: tail_position.column,
            row: tail_position.row.saturating_add(1),
        },
        Direction::Left => SnakePartPosition {
            column: tail_position.column.saturating_add(1),
            row: tail_position.row,
        },
        Direction::Right => SnakePartPosition {
            column: tail_position.column.saturating_sub(1),
            row: tail_position.row,
        },
    };
    snake.parts.push_front(new_tail);
    assert(snake.parts@ =~= grown_body(old(snake).parts@, old(snake).current_direction));
    new_tail
}

} // verus!
