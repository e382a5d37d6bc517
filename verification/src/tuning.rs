//! The constants of the game, in fixed-point steps.

use vstd::prelude::*;

verus! {

/// Steps per fly-area unit.
pub const SCALE: i64 = 4;

/// Height of the fly area: 420 units.
pub const FLY_AREA: i64 = 1680;

/// Height of the gap between the two halves of a pipe: 90 units.
pub const PIPE_HEIGHT: i64 = 360;

/// Width of a pipe: 50 units.
pub const PIPE_WIDTH: i64 = 200;

/// Distance a pipe scrolls to the left in one tick: 2 units.
pub const PIPE_SHIFT: i64 = 8;

/// Vertical speed right after a jump: 4.5 units per tick, upwards.
pub const JUMP: i64 = -18;

/// Speed gained per tick: 0.25 units per tick, downwards.
pub const GRAVITY: i64 = 1;

/// Horizontal position at which pipes appear: 900 units.
pub const SPAWN_X: i64 = 3600;

/// A pipe whose left edge is at or beyond this position is retired: -80 units.
pub const REMOVE_X: i64 = -320;

/// A pipe appears on every tick that is a positive multiple of this.
pub const SPAWN_INTERVAL: i32 = 80;

/// Least height of the upper half of a pipe, in whole units.
pub const MIN_UPPER_UNITS: i32 = 110;

/// Greatest height of the upper half of a pipe, in whole units.
pub const MAX_UPPER_UNITS: i32 = 220;

/// Least height of the upper half of a pipe: 110 units.
pub const MIN_UPPER_HEIGHT: i64 = 440;

/// Greatest height of the upper half of a pipe: 220 units.
pub const MAX_UPPER_HEIGHT: i64 = 880;

/// Width of the bird: 34 units.
pub const BIRD_WIDTH: i64 = 136;

/// Height of the bird: 24 units.
pub const BIRD_HEIGHT: i64 = 96;

/// Horizontal position of the bird: 60 units.
pub const BIRD_X: i64 = 240;

/// Vertical position of the bird at the start: the middle of the fly area.
pub const BIRD_START_Y: i64 = 840;

} // verus!
