use vstd::prelude::*;

verus! {

/// The heading of travel: one of the four cardinal values. The initial
/// heading is `Right`; a heading changes only on a recognized key press,
/// and there is no rule against reversing into the trail.
#[derive(Clone, Copy, Debug, PartialEq, Eq, Structural)]
pub enum Direction {
    Left,
    Right,
    Up,
    Down,
}

/// Horizontal offset of one tick in heading `d`, in grid cells.
pub open spec fn dx(d: Direction) -> int {
    match d {
        Direction::Left => -1,
        Direction::Right => 1,
        Direction::Up => 0,
        Direction::Down => 0,
    }
}

/// Vertical offset of one tick in heading `d`, in grid cells.
/// The y axis points down the screen, so `Up` decreases y.
pub open spec fn dy(d: Direction) -> int {
    match d {
        Direction::Left => 0,
        Direction::Right => 0,
        Direction::Up => -1,
        Direction::Down => 1,
    }
}

/// A key event as the driver reports it: the four arrow keys steer,
/// escape asks to quit, and every other key is `Other`.
#[derive(Clone, Copy, Debug, PartialEq, Eq, Structural)]
pub enum Key {
    Up,
    Left,
    Right,
    Down,
    Escape,
    Other,
}

} // verus!
