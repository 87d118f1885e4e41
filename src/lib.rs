//! A fixed-timestep 2D platformer core: player movement with coyote time,
//! jump buffering and sustained jumps, axis-split collision against a play
//! area and against blocks, and falling, destructible blocks.
//!
//! All quantities are integers in fixed-point units (see `geometry`), so that
//! every step of a tick is exact and proved free of overflow.

pub mod geometry;
pub mod block;
pub mod inputs;
pub mod player;
pub mod world;
