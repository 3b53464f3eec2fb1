//! Dimensions of the dungeon and of what moves in it, in metres.

use vstd::prelude::*;

verus! {

/// Width of the dungeon.
pub const DUNGEON_WIDTH: u32 = 60;

/// Height of the dungeon.
pub const DUNGEON_HEIGHT: u32 = 40;

/// Width of the player's rectangle.
pub const PLAYER_WIDTH: u32 = 2;

/// Height of the player's rectangle.
pub const PLAYER_HEIGHT: u32 = 2;

/// Distance covered by one step of the player, on each axis.
pub const PLAYER_SPEED: u32 = 1;

/// Width of a wall's rectangle.
pub const WALL_WIDTH: u32 = 2;

/// Height of a wall's rectangle.
pub const WALL_HEIGHT: u32 = 2;

/// Number of walls that are spawned together.
pub const WALL_COUNT: usize = 20;

} // verus!
