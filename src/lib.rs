use vstd::prelude::*;

pub mod geometry;
pub mod entity;
pub mod engine;
pub mod laws;
pub mod layout;

verus! {

/// Width of the playing field, in pixels.
pub const WINDOW_WIDTH: u32 = 800;

/// Height of the playing field, in pixels.
pub const WINDOW_HEIGHT: u32 = 600;

/// Title of the game's window.
pub const WINDOW_TITLE: &'static str = "pong";

/// Distance between a racket and its edge of the field.
pub const SCREEN_MARGIN: i32 = 10;

/// Time between two ticks, in milliseconds.
pub const FRAME_DURATION: u32 = 50;

/// Whether an integer is representable as an `i32`.
pub open spec fn fits_i32(v: int) -> bool {
    i32::MIN <= v <= i32::MAX
}

} // verus!
