//! Simulation engine for a two-player snake game on a fixed toroidal grid.
//!
//! The engine covers level layout, snake movement with input-queue
//! buffering, food spawning and expiry, collision and game-over detection,
//! scoring, and the top-level session state machine. Rendering and input
//! devices live outside; the engine consumes abstract key presses and
//! elapsed-time updates and exposes a list of colored tiles to draw.

pub mod food;
pub mod game;
pub mod geom;
pub mod level;
pub mod rng;
pub mod snake;
