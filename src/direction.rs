use vstd::prelude::*;

verus! {

/// The direction towards which the snake is moving.
#[derive(Clone, Copy, Debug, PartialEq, Eq, Structural)]
pub enum Direction {
    Left,
    Right,
    Up,
    Down,
}

/// Horizontal directions form the X axis.
pub open spec fn on_x_axis(d: Direction) -> bool {
    d == Direction::Left || d == Direction::Right
}

/// Vertical directions form the Y axis.
pub open spec fn on_y_axis(d: Direction) -> bool {
    d == Direction::Up || d == Direction::Down
}

/// Two directions are on the same axis when both are horizontal or both vertical.
pub open spec fn same_axis(a: Direction, b: Direction) -> bool {
    (on_x_axis(a) && on_x_axis(b)) || (on_y_axis(a) && on_y_axis(b))
}

/// The heading that results from asking for `requested` while moving along
/// `current`: a request on the current axis is ignored.
pub open spec fn effective_direction(requested: Direction, current: Direction) -> Direction {
    if same_axis(requested, current) {
        current
    } else {
        requested
    }
}

/// The direction that points back along the same axis.
pub open spec fn opposite(d: Direction) -> Direction {
    match d {
        Direction::Left => Direction::Right,
        Direction::Right => Direction::Left,
        Direction::Up => Direction::Down,
        Direction::Down => Direction::Up,
    }
}

impl Direction {
    pub fn is_x_direction(self) -> (r: bool)
        ensures
            r == on_x_axis(self),
    {
        self == Direction::Left || self == Direction::Right
    }

    pub fn is_y_direction(self) -> (r: bool)
        ensures
            r == on_y_axis(self),
    {
        self == Direction::Up || self == Direction::Down
    }

    pub fn are_both_on_x_axis(self, other: Direction) -> (r: bool)
        ensures
            r == (on_x_axis(self) && on_x_axis(other)),
    {
        self.is_x_direction() && other.is_x_direction()
    }

    pub fn are_both_on_y_axis(self, other: Direction) -> (r: bool)
        ensures
            r == (on_y_axis(self) && on_y_axis(other)),
    {
        self.is_y_direction() && other.is_y_direction()
    }
}

impl Default for Direction {
    /// A round starts heading right.
    fn default() -> (r: Direction)
        ensures
            r == Direction::Right,
    {
        Direction::Right
    }
}

/// A direction requested on the axis the snake already moves along leaves the
/// heading as it was: neither a reversal nor a repeat changes it.
pub proof fn axis_lock(requested: Direction, current: Direction)
    requires
        same_axis(requested, current),
    ensures
        effective_direction(requested, current) == current,
{
}

/// A direction requested on the other axis becomes the new heading.
pub proof fn turn_across_axis(requested: Direction, current: Direction)
    requires
        !same_axis(requested, current),
    ensures
        effective_direction(requested, current) == requested,
{
}

} // verus!
