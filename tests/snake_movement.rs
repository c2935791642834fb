use std::collections::VecDeque;

use snake_game::board::BoardBoundaries;
use snake_game::boundaries_check::{is_snake_biting_itself, is_snake_eating_food};
use snake_game::direction::Direction;
use snake_game::snake::{
    get_snake_next_end_position, grow_snake, move_snake_towards_direction,
    update_snake_direction_with_new_direction, Snake, SnakePartPosition,
};

fn pos(column: u16, row: u16) -> SnakePartPosition {
    SnakePartPosition { column, row }
}

fn snake_of(direction: Direction, cells: &[(u16, u16)]) -> Snake {
    Snake {
        current_direction: direction,
        parts: cells.iter().map(|&(c, r)| pos(c, r)).collect::<VecDeque<_>>(),
    }
}

fn cells(snake: &Snake) -> Vec<(u16, u16)> {
    snake.parts.iter().map(|p| (p.column, p.row)).collect()
}

#[test]
fn axis_classification() {
    assert!(Direction::Left.is_x_direction());
    assert!(Direction::Right.is_x_direction());
    assert!(!Direction::Up.is_x_direction());
    assert!(Direction::Up.is_y_direction());
    assert!(Direction::Down.is_y_direction());
    assert!(!Direction::Right.is_y_direction());
    assert!(Direction::Left.are_both_on_x_axis(Direction::Right));
    assert!(!Direction::Left.are_both_on_x_axis(Direction::Up));
    assert!(Direction::Up.are_both_on_y_axis(Direction::Down));
    assert!(!Direction::Down.are_both_on_y_axis(Direction::Right));
    assert_eq!(Direction::default(), Direction::Right);
}

#[test]
fn new_snake_lies_along_the_heading_axis() {
    let horizontal = Snake::new(Direction::Right, 1, 1, 4);
    assert_eq!(cells(&horizontal), vec![(1, 1), (2, 1), (3, 1), (4, 1)]);
    assert_eq!(horizontal.current_direction, Direction::Right);
    assert_eq!(horizontal.head(), pos(4, 1));
    assert_eq!(horizontal.tail(), pos(1, 1));

    let vertical = Snake::new(Direction::Down, 3, 2, 3);
    assert_eq!(cells(&vertical), vec![(3, 2), (3, 3), (3, 4)]);
    assert_eq!(vertical.current_direction, Direction::Down);

    let single = Snake::new(Direction::Left, 7, 7, 1);
    assert_eq!(cells(&single), vec![(7, 7)]);
}

#[test]
fn new_snake_heading_left_or_up_trails_its_head() {
    let left = Snake::new(Direction::Left, 5, 5, 3);
    assert_eq!(cells(&left), vec![(5, 5), (4, 5), (3, 5)]);
    assert_eq!(left.head(), pos(3, 5));
    assert!(left.head().column < left.tail().column);

    let up = Snake::new(Direction::Up, 2, 9, 4);
    assert_eq!(cells(&up), vec![(2, 9), (2, 8), (2, 7), (2, 6)]);
    assert_eq!(up.head(), pos(2, 6));

    let to_zero = Snake::new(Direction::Left, 3, 0, 4);
    assert_eq!(cells(&to_zero), vec![(3, 0), (2, 0), (1, 0), (0, 0)]);

    // each segment is one step along the heading from the one before it
    for direction in [Direction::Left, Direction::Right, Direction::Up, Direction::Down] {
        let snake = Snake::new(direction, 10, 10, 5);
        for i in 0..4 {
            assert_eq!(snake.parts[i + 1], get_snake_next_end_position(&snake.parts[i], direction));
        }
    }
}

#[test]
fn new_left_snake_moves_away_from_its_body() {
    let mut snake = Snake::new(Direction::Left, 6, 2, 3);
    move_snake_towards_direction(Direction::Left, &mut snake, 0, 0);
    assert_eq!(cells(&snake), vec![(5, 2), (4, 2), (3, 2)]);
    assert!(!is_snake_biting_itself(&snake));
}

#[test]
fn next_position_steps_one_cell_and_saturates() {
    assert_eq!(get_snake_next_end_position(&pos(5, 5), Direction::Right), pos(6, 5));
    assert_eq!(get_snake_next_end_position(&pos(5, 5), Direction::Left), pos(4, 5));
    assert_eq!(get_snake_next_end_position(&pos(5, 5), Direction::Up), pos(5, 4));
    assert_eq!(get_snake_next_end_position(&pos(5, 5), Direction::Down), pos(5, 6));
    assert_eq!(get_snake_next_end_position(&pos(0, 0), Direction::Left), pos(0, 0));
    assert_eq!(get_snake_next_end_position(&pos(0, 0), Direction::Up), pos(0, 0));
    assert_eq!(get_snake_next_end_position(&pos(u16::MAX, 3), Direction::Right), pos(u16::MAX, 3));
    assert_eq!(get_snake_next_end_position(&pos(3, u16::MAX), Direction::Down), pos(3, u16::MAX));
}

#[test]
fn same_axis_request_keeps_heading() {
    for (current, requested) in [
        (Direction::Right, Direction::Left),
        (Direction::Right, Direction::Right),
        (Direction::Left, Direction::Right),
        (Direction::Up, Direction::Down),
        (Direction::Down, Direction::Down),
    ] {
        let mut snake = snake_of(current, &[(1, 1), (2, 1)]);
        update_snake_direction_with_new_direction(requested, &mut snake);
        assert_eq!(snake.current_direction, current);
        assert_eq!(cells(&snake), vec![(1, 1), (2, 1)]);
    }
}

#[test]
fn other_axis_request_turns() {
    let mut snake = snake_of(Direction::Right, &[(1, 1), (2, 1)]);
    update_snake_direction_with_new_direction(Direction::Down, &mut snake);
    assert_eq!(snake.current_direction, Direction::Down);
    update_snake_direction_with_new_direction(Direction::Left, &mut snake);
    assert_eq!(snake.current_direction, Direction::Left);
}

#[test]
fn move_keeps_length_and_reports_vacated_tail() {
    let mut snake = Snake::new(Direction::Right, 1, 1, 4);
    let vacated = move_snake_towards_direction(Direction::Left, &mut snake, 20, 20);
    assert_eq!(vacated, Some(pos(1, 1)));
    assert_eq!(snake.current_direction, Direction::Right);
    assert_eq!(cells(&snake), vec![(2, 1), (3, 1), (4, 1), (5, 1)]);

    let vacated = move_snake_towards_direction(Direction::Down, &mut snake, 20, 20);
    assert_eq!(vacated, Some(pos(2, 1)));
    assert_eq!(snake.current_direction, Direction::Down);
    assert_eq!(cells(&snake), vec![(3, 1), (4, 1), (5, 1), (5, 2)]);
}

#[test]
fn move_keeps_tail_on_food_uncleared() {
    let mut snake = Snake::new(Direction::Right, 1, 1, 3);
    let vacated = move_snake_towards_direction(Direction::Right, &mut snake, 1, 1);
    assert_eq!(vacated, None);
    assert_eq!(cells(&snake), vec![(2, 1), (3, 1), (4, 1)]);
}

#[test]
fn move_of_a_single_segment_snake() {
    let mut snake = snake_of(Direction::Up, &[(4, 4)]);
    let vacated = move_snake_towards_direction(Direction::Up, &mut snake, 0, 0);
    assert_eq!(vacated, Some(pos(4, 4)));
    assert_eq!(cells(&snake), vec![(4, 3)]);
}

#[test]
fn grow_adds_a_tail_against_the_heading() {
    let mut right = snake_of(Direction::Right, &[(5, 5), (6, 5)]);
    assert_eq!(grow_snake(&mut right), pos(4, 5));
    assert_eq!(cells(&right), vec![(4, 5), (5, 5), (6, 5)]);

    let mut left = snake_of(Direction::Left, &[(5, 5), (4, 5)]);
    assert_eq!(grow_snake(&mut left), pos(6, 5));

    let mut down = snake_of(Direction::Down, &[(5, 5), (5, 6)]);
    assert_eq!(grow_snake(&mut down), pos(5, 4));

    let mut up = snake_of(Direction::Up, &[(5, 5), (5, 4)]);
    assert_eq!(grow_snake(&mut up), pos(5, 6));
    assert_eq!(up.head(), pos(5, 4));

    let mut at_edge = snake_of(Direction::Right, &[(0, 3), (1, 3)]);
    assert_eq!(grow_snake(&mut at_edge), pos(0, 3));
    assert_eq!(at_edge.parts.len(), 3);
}

#[test]
fn self_bite_detection() {
    let biting = snake_of(Direction::Up, &[(2, 2), (3, 2), (3, 3), (2, 3), (2, 2)]);
    assert!(is_snake_biting_itself(&biting));

    let head_on_neck = snake_of(Direction::Left, &[(1, 1), (2, 1), (3, 1), (2, 1)]);
    assert!(is_snake_biting_itself(&head_on_neck));

    let distinct = snake_of(Direction::Right, &[(1, 1), (2, 1), (3, 1), (4, 1)]);
    assert!(!is_snake_biting_itself(&distinct));

    let single = snake_of(Direction::Right, &[(1, 1)]);
    assert!(!is_snake_biting_itself(&single));

    let repeat_away_from_head = snake_of(Direction::Right, &[(1, 1), (1, 1), (2, 1)]);
    assert!(!is_snake_biting_itself(&repeat_away_from_head));
}

#[test]
fn eating_means_head_on_food() {
    let snake = Snake::new(Direction::Right, 1, 1, 4);
    assert!(is_snake_eating_food(&snake, 4, 1));
    assert!(!is_snake_eating_food(&snake, 1, 1));
    assert!(!is_snake_eating_food(&snake, 4, 2));
}

#[test]
fn boundary_exclusivity() {
    let board = BoardBoundaries { starting_col: 0, starting_row: 0, col_size: 10, row_size: 10 };
    assert!(!board.is_point_within_boundaries(0, 5));
    assert!(!board.is_point_within_boundaries(10, 5));
    assert!(board.is_point_within_boundaries(5, 5));
    assert!(board.is_point_within_boundaries(9, 9));
    assert!(!board.is_point_within_boundaries(5, 0));
    assert!(!board.is_point_within_boundaries(5, 10));
    assert_eq!(board.ending_col(), 10);
    assert_eq!(board.ending_row(), 10);

    let outside = snake_of(Direction::Right, &[(9, 5), (10, 5)]);
    assert!(board.is_snake_outside_boundaries(&outside));
    let inside = snake_of(Direction::Right, &[(4, 5), (5, 5)]);
    assert!(!board.is_snake_outside_boundaries(&inside));
    let on_top_border = snake_of(Direction::Up, &[(5, 1), (5, 0)]);
    assert!(board.is_snake_outside_boundaries(&on_top_border));
}

#[test]
fn board_ends_saturate() {
    let board = BoardBoundaries { starting_col: 65000, starting_row: 3, col_size: 1000, row_size: 7 };
    assert_eq!(board.ending_col(), u16::MAX);
    assert_eq!(board.ending_row(), 10);
    let default = BoardBoundaries::default();
    assert_eq!((default.starting_col, default.starting_row), (0, 0));
    assert_eq!((default.col_size, default.row_size), (40, 10));
}
