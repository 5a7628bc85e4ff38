//! A verified core for a terminal snake game: grid geometry, the snake body
//! with its no-self-overlap invariant, directional intents, the per-tick
//! simulation step, food placement, and the glyph-grid render projection.

use vstd::prelude::*;

pub mod geometry;
pub mod intent;
pub mod laws;
pub mod render;
pub mod rng;
pub mod sim;

pub use geometry::Direction;
pub use geometry::Point;
pub use intent::IntentQueue;
pub use render::render_frame;
pub use sim::GameState;

verus! {

/// Width of the playing field, in cells; columns are numbered 1 through this value.
pub const GAME_LENGTH: u8 = 20;

/// Height of the playing field, in cells; rows are numbered 1 through this value.
pub const GAME_HEIGHT: u8 = 10;

} // verus!
