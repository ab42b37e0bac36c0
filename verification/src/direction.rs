//! Facing directions and the frames of the sprite sheet reserved for each.

use vstd::prelude::*;

verus! {

/// A facing direction of the trainer.
#[derive(Debug, Clone, Copy, PartialEq, Eq, Structural)]
pub enum Direction {
    Down,
    Left,
    Right,
    Up,
}

/// Number of frames in the walk cycle of one direction.
pub const SPRITES_PER_DIRECTION: usize = 3;

/// First frame of the walk cycle facing down.
pub const DOWN_MIN: usize = 0;

/// End of the frames facing down: one past the last frame of the cycle.
pub const DOWN_MAX: usize = DOWN_MIN + SPRITES_PER_DIRECTION;

/// First frame of the walk cycle facing left.
pub const LEFT_MIN: usize = 4;

/// End of the frames facing left.
pub const LEFT_MAX: usize = LEFT_MIN + SPRITES_PER_DIRECTION;

/// First frame of the walk cycle facing right.
pub const RIGHT_MIN: usize = 8;

/// End of the frames facing right.
pub const RIGHT_MAX: usize = RIGHT_MIN + SPRITES_PER_DIRECTION;

/// First frame of the walk cycle facing up.
pub const UP_MIN: usize = 12;

/// End of the frames facing up.
pub const UP_MAX: usize = UP_MIN + SPRITES_PER_DIRECTION;

/// First frame of the walk cycle of `direction`.
pub open spec fn range_min(direction: Direction) -> int {
    match direction {
        Direction::Down => 0,
        Direction::Left => 4,
        Direction::Right => 8,
        Direction::Up => 12,
    }
}

/// End of the walk cycle of `direction`: one past its last frame.
pub open spec fn range_max(direction: Direction) -> int {
    range_min(direction) + 3
}

/// Whether `sprite_number` is a frame of the walk cycle of `direction`,
/// the first frame included and the end of the range excluded.
pub open spec fn in_cycle(direction: Direction, sprite_number: int) -> bool {
    range_min(direction) <= sprite_number < range_max(direction)
}

/// The direction a frame is drawn in. Each of Left, Right and Up owns its
/// range with both ends included; every other frame, whether below, between
/// or beyond the ranges, counts as Down.
pub open spec fn direction_of(sprite_number: int) -> Direction {
    if range_min(Direction::Up) <= sprite_number <= range_max(Direction::Up) {
        Direction::Up
    } else if range_min(Direction::Right) <= sprite_number <= range_max(Direction::Right) {
        Direction::Right
    } else if range_min(Direction::Left) <= sprite_number <= range_max(Direction::Left) {
        Direction::Left
    } else {
        Direction::Down
    }
}

/// The frames reserved for `direction`, as the pair of the first frame and
/// the end of the range.
pub fn get_sprite_range(direction: &Direction) -> (range: (usize, usize))
    ensures
        range.0 == range_min(*direction),
        range.1 == range_max(*direction),
{
    match direction {
        Direction::Down => (DOWN_MIN, DOWN_MAX),
        Direction::Left => (LEFT_MIN, LEFT_MAX),
        Direction::Right => (RIGHT_MIN, RIGHT_MAX),
        Direction::Up => (UP_MIN, UP_MAX),
    }
}

/// The direction that the frame `sprite_number` is drawn in.
pub fn get_sprite_direction(sprite_number: usize) -> (direction: Direction)
    ensures
        direction == direction_of(sprite_number as int),
{
    let mut direction = Direction::Down;
    if LEFT_MIN <= sprite_number && sprite_number <= LEFT_MAX {
        direction = Direction::Left;
    }
    if RIGHT_MIN <= sprite_number && sprite_number <= RIGHT_MAX {
        direction = Direction::Right;
    }
    if UP_MIN <= sprite_number && sprite_number <= UP_MAX {
        direction = Direction::Up;
    }
    direction
}

/// The walk cycles of two different directions share no frame.
pub proof fn lemma_cycles_are_disjoint(first: Direction, second: Direction, sprite_number: int)
    requires
        first != second,
        in_cycle(first, sprite_number),
    ensures
        !in_cycle(second, sprite_number),
{
}

/// A frame of a walk cycle is drawn in the direction of that cycle.
pub proof fn lemma_cycle_frame_faces_its_direction(direction: Direction, sprite_number: int)
    requires
        in_cycle(direction, sprite_number),
    ensures
        direction_of(sprite_number) == direction,
{
}

} // verus!
