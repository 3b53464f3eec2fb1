//! Rectangles on the grid and the test that decides whether the player has
//! run into a wall.

use vstd::prelude::*;
use crate::config::{PLAYER_HEIGHT, PLAYER_WIDTH, WALL_HEIGHT, WALL_WIDTH};

verus! {

/// Top-left corner of the player's rectangle: `x`, then `y`.
#[derive(Clone, Copy, PartialEq, Eq, Structural, Debug)]
pub struct PlayerPos(pub u32, pub u32);

/// Top-left corner of a wall's rectangle: `x`, then `y`.
#[derive(Clone, Copy, PartialEq, Eq, Structural, Debug)]
pub struct WallPos(pub u32, pub u32);

/// On one axis: the player's leading edge lies in the wall's span
/// `[wall, wall + wall_size)`, or the player's trailing edge lies in
/// `[wall + 1, wall + wall_size)`. A wall of size 0 is never met, and a wall
/// of size 1 only by the first of the two.
pub open spec fn axis_touches(player: int, player_size: int, wall: int, wall_size: int) -> bool {
    (wall <= player < wall + wall_size) || (wall + 1 <= player + player_size < wall + wall_size)
}

/// The player at `player` has run into the wall at `wall`: the axis test
/// holds on `x` and on `y`.
pub open spec fn touches(player: PlayerPos, wall: WallPos) -> bool {
    axis_touches(player.0 as int, PLAYER_WIDTH as int, wall.0 as int, WALL_WIDTH as int)
        && axis_touches(player.1 as int, PLAYER_HEIGHT as int, wall.1 as int, WALL_HEIGHT as int)
}

/// The two rectangles share a cell of positive area.
pub open spec fn rectangles_overlap(player: PlayerPos, wall: WallPos) -> bool {
    player.0 < wall.0 + WALL_WIDTH && wall.0 < player.0 + PLAYER_WIDTH
        && player.1 < wall.1 + WALL_HEIGHT && wall.1 < player.1 + PLAYER_HEIGHT
}

/// The axis test on machine integers, widened so that no sum overflows.
fn axis_hit(player: u32, player_size: u32, wall: u32, wall_size: u32) -> (hit: bool)
    ensures
        hit == axis_touches(player as int, player_size as int, wall as int, wall_size as int),
{
    let lead: u64 = player as u64;
    let trail: u64 = player as u64 + player_size as u64;
    let start: u64 = wall as u64;
    let end: u64 = wall as u64 + wall_size as u64;
    (start <= lead && lead < end) || (start + 1 <= trail && trail < end)
}

/// Axis-aligned bounding box collision test between the player and one wall.
pub fn is_player_touching_wall(player: PlayerPos, wall: WallPos) -> (hit: bool)
    ensures
        hit == touches(player, wall),
{
    axis_hit(player.0, PLAYER_WIDTH, wall.0, WALL_WIDTH)
        && axis_hit(player.1, PLAYER_HEIGHT, wall.1, WALL_HEIGHT)
}

/// With a player no wider and no taller than a wall, the collision test says
/// exactly whether the two rectangles share a cell.
pub proof fn lemma_touches_iff_overlap(player: PlayerPos, wall: WallPos)
    ensures
        touches(player, wall) == rectangles_overlap(player, wall),
{
}

/// Rectangles that meet along an edge and no further do not collide, on
/// whichever of the four sides they meet.
pub proof fn lemma_shared_edge_is_no_collision(player: PlayerPos, wall: WallPos)
    requires
        player.0 + PLAYER_WIDTH == wall.0 || wall.0 + WALL_WIDTH == player.0
            || player.1 + PLAYER_HEIGHT == wall.1 || wall.1 + WALL_HEIGHT == player.1,
    ensures
        !touches(player, wall),
{
}

/// From a position where the player's rectangle meets the wall's along a
/// vertical edge, on either side of the wall, with the two overlapping on
/// `y`: there is no collision there, and one unit towards the wall there is.
pub proof fn lemma_one_unit_past_vertical_edge_collides(
    player: PlayerPos,
    shifted: PlayerPos,
    wall: WallPos,
)
    requires
        (player.0 + PLAYER_WIDTH == wall.0 && shifted.0 == player.0 + 1) || (wall.0 + WALL_WIDTH
            == player.0 && shifted.0 + 1 == player.0),
        shifted.1 == player.1,
        axis_touches(player.1 as int, PLAYER_HEIGHT as int, wall.1 as int, WALL_HEIGHT as int),
    ensures
        !touches(player, wall),
        touches(shifted, wall),
{
}

/// The same along a horizontal edge, above or below the wall, with the two
/// overlapping on `x`.
pub proof fn lemma_one_unit_past_horizontal_edge_collides(
    player: PlayerPos,
    shifted: PlayerPos,
    wall: WallPos,
)
    requires
        (player.1 + PLAYER_HEIGHT == wall.1 && shifted.1 == player.1 + 1) || (wall.1 + WALL_HEIGHT
            == player.1 && shifted.1 + 1 == player.1),
        shifted.0 == player.0,
        axis_touches(player.0 as int, PLAYER_WIDTH as int, wall.0 as int, WALL_WIDTH as int),
    ensures
        !touches(player, wall),
        touches(shifted, wall),
{
}

} // verus!
