//! A small 2D game-loop library: a player sprite that walks in four
//! directions across a window, driven by keyboard events.
//!
//! The library holds the game's state and rules: the player, the
//! direction history that decides which way the sprite walks, the
//! per-tick position update, and the sprite-sheet arithmetic that picks
//! the frame to draw. Everything here is verified; the windowing,
//! rendering and event polling live outside, in the surrounding
//! application, which feeds plain events in and takes plain rectangles
//! out.

pub mod geom;
pub mod input;
pub mod player;
pub mod render;
