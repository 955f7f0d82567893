//! Core of a small trail-drawing arcade game.
//!
//! A player-controlled cursor draws a sliding window of line segments across
//! an integer playfield.  When the newest segment crosses the oldest retained
//! one, the loop closes: every living enemy whose position lies inside the
//! axis-aligned bounding box of the two segments is captured and starts its
//! dying animation.  The level is complete once the roster is empty.
//!
//! The crate holds the verified game core: geometry, the trail window, the
//! player and enemy state machines, and the per-frame session update.  A
//! presentation shell delivers direction commands and frame timestamps, and
//! reads back segments, entity states and the session state for rendering.

pub mod enemy;
pub mod game;
pub mod geometry;
pub mod player;
pub mod trail;
