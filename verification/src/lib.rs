//! Core simulation of a small one-button arcade game: a square player sprite
//! falls under gravity, jumps on request, and must pass through gaps in a
//! stream of scrolling obstacle pairs.  The library owns all game state and
//! the per-tick update rule; a thin windowing shell drives it and draws the
//! command list it produces.
//!
//! All geometry is measured in tenths of a pixel, so that every quantity in
//! the simulation (the 0.4 px gravity step, the 2 px scroll speed) is an
//! exact integer and every trajectory is reproducible.

use vstd::prelude::*;

pub mod clock;
pub mod draw;
pub mod geom;
pub mod laws;
pub mod sim;

verus! {

/// Screen width, in tenths of a pixel (400 px).
pub const SCREEN_WIDTH: i32 = 4000;

/// Screen height, in tenths of a pixel (600 px).
pub const SCREEN_HEIGHT: i32 = 6000;

/// Edge length of the square player sprite (20 px).
pub const PLAYER_SIZE: i32 = 200;

/// Fixed horizontal position of the player's centre: mid-screen.
pub const PLAYER_CENTER_X: i32 = 2000;

/// Width of each obstacle rectangle (60 px).
pub const PIPE_WIDTH: i32 = 600;

/// Vertical extent of the gap between an obstacle pair's rectangles (150 px).
pub const PIPE_GAP: i32 = 1500;

/// Leftward distance the front obstacle pair moves per tick (2 px).
pub const PIPE_SPEED: i32 = 20;

/// Downward velocity gained per tick (0.4 px per tick).
pub const GRAVITY: i32 = 4;

/// Velocity imposed by a jump: an upward impulse of 8 px per tick.
pub const JUMP_VELOCITY: i32 = -80;

/// Horizontal headroom that the newest pair must clear before the next pair
/// spawns (200 px).
pub const SPAWN_DISTANCE: i32 = 2000;

/// A new pair spawns once the newest pair's position drops below this.
pub const SPAWN_THRESHOLD: i32 = SCREEN_WIDTH - SPAWN_DISTANCE;

/// Least possible gap-centre height (100 px from the top).
pub const GAP_CENTER_MIN: i32 = 1000;

/// Strict upper bound on the gap-centre height (100 px from the bottom).
pub const GAP_CENTER_MAX: i32 = SCREEN_HEIGHT - 1000;

} // verus!
