//! A terminal snake game's core rules: turn validation, per-tick input
//! resolution, snake movement with growth and collision detection, and
//! random apple placement. Rendering and keyboard handling live outside
//! this crate; the library works on plain board coordinates.

pub mod direction;
pub mod game;
