//! The per-tick rule that picks the next frame of a trainer's sprite.

use vstd::prelude::*;
use crate::direction::{
    direction_of, get_sprite_direction, get_sprite_range, in_cycle, range_max, range_min, Direction,
};
use crate::input::{get_input_direction, is_idle, requested_direction, AxisInput};

verus! {

/// The frame that follows `sprite_number` when `requested` is asked for.
///
/// With no request the frame stays. A request for the direction whose walk
/// cycle holds the frame moves one frame on. Any other request starts the
/// requested direction at its first frame.
pub open spec fn next_frame(sprite_number: int, requested: Option<Direction>) -> int {
    match requested {
        None => sprite_number,
        Some(direction) => if in_cycle(direction, sprite_number) {
            sprite_number + 1
        } else {
            range_min(direction)
        },
    }
}

/// The frame to show after `sprite_number` when `requested` is asked for.
pub fn next_sprite_number(sprite_number: usize, requested: Option<Direction>) -> (next: usize)
    ensures
        next == next_frame(sprite_number as int, requested),
{
    match requested {
        None => sprite_number,
        Some(new_direction) => {
            let current_direction = get_sprite_direction(sprite_number);
            let (current_min, current_max) = get_sprite_range(&current_direction);
            // A frame at the end of its range is past the cycle and does not move on.
            let sprite_in_range = current_min <= sprite_number && sprite_number < current_max;
            if new_direction == current_direction && sprite_in_range {
                sprite_number + 1
            } else {
                let (new_min, _) = get_sprite_range(&new_direction);
                new_min
            }
        },
    }
}

/// The frame to show after `sprite_number` in a tick whose axes read `input`.
pub fn select_sprite_number(sprite_number: usize, input: &AxisInput) -> (next: usize)
    ensures
        next == next_frame(sprite_number as int, requested_direction(*input)),
{
    next_sprite_number(sprite_number, get_input_direction(input))
}

/// Moves the sprites of all trainers one tick on.
pub struct TrainerMovementSystem;

impl TrainerMovementSystem {
    /// Replaces each frame in `sprite_numbers` by the one that follows it in a
    /// tick whose axes read `input`. The input is read once for all trainers.
    pub fn run(&mut self, sprite_numbers: &mut Vec<usize>, input: &AxisInput)
        ensures
            final(sprite_numbers)@.len() == old(sprite_numbers)@.len(),
            forall|i: int|
                0 <= i < old(sprite_numbers)@.len() ==> #[trigger] final(sprite_numbers)@[i]
                    == next_frame(old(sprite_numbers)@[i] as int, requested_direction(*input)),
    {
        let requested = get_input_direction(input);
        let count = sprite_numbers.len();
        let mut index: usize = 0;
        while index < count
            invariant
                index <= count,
                sprite_numbers@.len() == count,
                count == old(sprite_numbers)@.len(),
                requested == requested_direction(*input),
                forall|i: int|
                    0 <= i < index ==> #[trigger] sprite_numbers@[i] == next_frame(
                        old(sprite_numbers)@[i] as int,
                        requested,
                    ),
                forall|i: int|
                    index <= i < count ==> #[trigger] sprite_numbers@[i] == old(sprite_numbers)@[i],
            decreases count - index,
        {
            let next = next_sprite_number(sprite_numbers[index], requested);
            sprite_numbers[index] = next;
            index += 1;
        }
    }
}

/// The next frame, told by the direction that the frame is drawn in: a
/// request for that direction moves one frame on while the frame is below the
/// end of that direction's range, and every other request starts the
/// requested direction at its first frame.
pub proof fn lemma_next_frame_by_current_direction(sprite_number: int, requested: Direction)
    ensures
        next_frame(sprite_number, Some(requested)) == if direction_of(sprite_number) == requested
            && in_cycle(direction_of(sprite_number), sprite_number) {
            sprite_number + 1
        } else {
            range_min(requested)
        },
{
}

/// A request for the direction of the walk cycle that holds the frame moves
/// one frame on. This holds of every frame of the cycle, the last included.
pub proof fn lemma_same_direction_advances(direction: Direction, sprite_number: int)
    requires
        in_cycle(direction, sprite_number),
    ensures
        next_frame(sprite_number, Some(direction)) == sprite_number + 1,
{
}

/// From the last frame of a walk cycle the same request moves on to the end
/// of the range, and from there it starts the cycle again at its first frame.
pub proof fn lemma_cycle_restarts_past_last_frame(direction: Direction)
    ensures
        next_frame(range_max(direction) - 1, Some(direction)) == range_max(direction),
        next_frame(range_max(direction), Some(direction)) == range_min(direction),
{
}

/// A request for another direction than that of the walk cycle holding the
/// frame starts the requested direction at its first frame, wherever in its
/// own cycle the frame stood.
pub proof fn lemma_direction_change_resets(
    current: Direction,
    requested: Direction,
    sprite_number: int,
)
    requires
        current != requested,
        in_cycle(current, sprite_number),
    ensures
        next_frame(sprite_number, Some(requested)) == range_min(requested),
{
}

/// While both axes are idle no direction is asked for and every frame,
/// on the sheet or not, stays as it is.
pub proof fn lemma_idle_input_keeps_frame(sprite_number: int, input: AxisInput)
    requires
        is_idle(input.horizontal),
        is_idle(input.vertical),
    ensures
        requested_direction(input) is None,
        next_frame(sprite_number, requested_direction(input)) == sprite_number,
{
}

/// A direction is asked for exactly when an axis is pushed.
pub proof fn lemma_request_needs_pushed_axis(input: AxisInput)
    ensures
        requested_direction(input) is None <==> is_idle(input.horizontal) && is_idle(
            input.vertical,
        ),
{
}

/// After a tick in which a direction is asked for, the frame lies within the
/// range of that direction and is drawn facing it, whatever the frame before.
pub proof fn lemma_requested_direction_is_faced(sprite_number: int, requested: Direction)
    ensures
        range_min(requested) <= next_frame(sprite_number, Some(requested)) <= range_max(
            requested,
        ),
        direction_of(next_frame(sprite_number, Some(requested))) == requested,
{
}

/// A frame on the sheet is followed by a frame on the sheet, whatever is
/// asked for.
pub proof fn lemma_frame_stays_on_sheet(sprite_number: int, requested: Option<Direction>)
    requires
        0 <= sprite_number <= range_max(Direction::Up),
    ensures
        0 <= next_frame(sprite_number, requested) <= range_max(Direction::Up),
{
}

} // verus!
