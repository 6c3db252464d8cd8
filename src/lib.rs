use vstd::prelude::*;

pub mod pegs;
pub mod spawn;

verus! {

/// Width of the playfield, in pixels.
pub const SCREEN_WIDTH: i32 = 800;

/// Height of the playfield, in pixels.
pub const SCREEN_HEIGHT: i32 = 600;

} // verus!
