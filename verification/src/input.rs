//! Directional input: the two axes of one tick and the direction they ask for.

use vstd::prelude::*;
use crate::direction::Direction;

verus! {

/// What one input axis reports when it is bound: which side of rest it is
/// pushed to, if any.
#[derive(Debug, Clone, Copy, PartialEq, Eq, Structural)]
pub enum AxisSign {
    Negative,
    Neutral,
    Positive,
}

/// The axes of one tick. `None` stands for an axis that is not bound.
#[derive(Debug, Clone, Copy, PartialEq, Eq, Structural)]
pub struct AxisInput {
    pub horizontal: Option<AxisSign>,
    pub vertical: Option<AxisSign>,
}

/// Whether an axis gives no signal: it is unbound or at rest.
pub open spec fn is_idle(axis: Option<AxisSign>) -> bool {
    axis is None || axis == Some(AxisSign::Neutral)
}

/// The direction that `input` asks for. A pushed vertical axis decides alone;
/// the horizontal axis is heard only while the vertical one is idle.
pub open spec fn requested_direction(input: AxisInput) -> Option<Direction> {
    match (input.vertical, input.horizontal) {
        (Some(AxisSign::Positive), _) => Some(Direction::Up),
        (Some(AxisSign::Negative), _) => Some(Direction::Down),
        (_, Some(AxisSign::Positive)) => Some(Direction::Right),
        (_, Some(AxisSign::Negative)) => Some(Direction::Left),
        _ => None,
    }
}

/// The direction that `input` asks for, or `None` when both axes are idle.
pub fn get_input_direction(input: &AxisInput) -> (direction: Option<Direction>)
    ensures
        direction == requested_direction(*input),
{
    let mut direction = None;
    if let Some(value) = input.horizontal {
        match value {
            AxisSign::Negative => {
                direction = Some(Direction::Left);
            },
            AxisSign::Positive => {
                direction = Some(Direction::Right);
            },
            AxisSign::Neutral => {},
        }
    }
    if let Some(value) = input.vertical {
        match value {
            AxisSign::Positive => {
                direction = Some(Direction::Up);
            },
            AxisSign::Negative => {
                direction = Some(Direction::Down);
            },
            AxisSign::Neutral => {},
        }
    }
    direction
}

} // verus!
