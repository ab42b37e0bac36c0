//! Sprite animation rules for a trainer walking a top-down overworld.
//!
//! A trainer is drawn from a sprite sheet whose frames are grouped by facing
//! direction. Once per tick the directional input picks the frame to show
//! next: the walk cycle of the current direction moves on by one frame, or a
//! new direction starts at its first frame.

pub mod direction;
pub mod input;
pub mod trainer_movement;

pub use direction::{get_sprite_direction, get_sprite_range, Direction};
pub use input::{get_input_direction, AxisInput, AxisSign};
pub use trainer_movement::{next_sprite_number, select_sprite_number, TrainerMovementSystem};
