//! A grid-based box-pushing puzzle engine.
//!
//! A single player walks on a rectangular tile grid and pushes boxes onto
//! target spots; the puzzle is won once every box rests on a spot.  This
//! crate holds the simulation core: the entity table, the queue of pending
//! move intents, the movement resolver that applies one intent to the grid,
//! the win-state evaluator, and the tick driver that sequences them.
//! Rendering, audio and raw input capture are left to the embedding
//! application, which consumes the plain data this crate produces.

pub mod components;
pub mod constants;
pub mod events;
pub mod gameplay;
pub mod input;
pub mod resolver;
pub mod resources;
pub mod tick;
pub mod world;
