//! A terminal river game, verified: a player marker must stay inside a
//! procedurally shifting channel that scrolls downward once per tick.
//!
//! The crate holds the whole of the game's logic: world state and its
//! invariant, the per-tick simulation step (collision, scroll, edge easing,
//! stochastic target regeneration), keyboard command handling, and the
//! projection of the world onto a character grid. Terminal I/O lives outside.

pub mod input;
pub mod render;
pub mod step;
pub mod world;
