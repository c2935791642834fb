use vstd::prelude::*;

use crate::snake::{Snake, SnakePartPosition};

verus! {

/// The head sits on a cell that another segment of the body also occupies.
pub open spec fn bites_itself(parts: Seq<SnakePartPosition>) -> bool {
    exists|i: int| 0 <= i < parts.len() - 1 && #[trigger] parts[i] == parts.last()
}

/// Whether the head overlaps any other segment of the body.
pub fn is_snake_biting_itself(snake: &Snake) -> (r: bool)
    requires
        snake.wf(),
    ensures
        r == bites_itself(snake.parts@),
{
    let snake_head = snake.head();
    let last = snake.parts.len() - 1;
    let mut i: usize = 0;
    while i < last
        invariant
            last == snake.parts@.len() - 1,
            i <= last,
            snake_head == snake.parts@.last(),
            forall|j: int| 0 <= j < i ==> snake.parts@[j] != snake_head,
        decreases last - i,
    {
        if snake.parts[i] == snake_head {
            return true;
        }
        i = i + 1;
    }
    false
}

/// Whether the head is on the food at (`food_col`, `food_row`).
pub fn is_snake_eating_food(snake: &Snake, food_col: u16, food_row: u16) -> (r: bool)
    requires
        snake.wf(),
    ensures
        r == (snake.head_spec() == SnakePartPosition { column: food_col, row: food_row }),
{
    let snake_head = snake.head();

    snake_head.column == food_col && snake_head.row == food_row
}

/// A body whose segments are pairwise distinct never bites itself, and one
/// whose head shares a cell with another segment always does.
pub proof fn self_bite_detection(parts: Seq<SnakePartPosition>)
    requires
        parts.len() > 0,
    ensures
        parts.no_duplicates() ==> !bites_itself(parts),
        (exists|i: int| 0 <= i < parts.len() - 1 && parts[i] == parts.last()) ==> bites_itself(parts),
{
    if parts.no_duplicates() && bites_itself(parts) {
        let i = choose|i: int| 0 <= i < parts.len() - 1 && #[trigger] parts[i] == parts.last();
        assert(parts[i] == parts[parts.len() - 1]);
    }
}

} // verus!
