//! A verified session controller for a two-player Gomoku-style placement
//! game: board primitives, pointer-to-cell mapping, a decision engine for
//! automated sides, and the turn-alternation state machine that drives a
//! session from construction to a latched win.

pub mod board;
pub mod console;
pub mod ia;
pub mod mouse;
