//! The player's steps: eight directions, each axis held inside the dungeon.

use vstd::prelude::*;
use crate::config::{DUNGEON_HEIGHT, DUNGEON_WIDTH, PLAYER_HEIGHT, PLAYER_SPEED, PLAYER_WIDTH};
use crate::geometry::PlayerPos;

verus! {

/// One of the eight ways the player can step. North is towards `y == 0`,
/// west towards `x == 0`.
#[derive(Clone, Copy, PartialEq, Eq, Structural, Debug)]
pub enum Direction {
    West,
    East,
    North,
    South,
    NorthWest,
    NorthEast,
    SouthWest,
    SouthEast,
}

impl Direction {
    /// Sign of the step on `x`: -1 towards the west, 1 towards the east.
    pub open spec fn dx(self) -> int {
        match self {
            Direction::West | Direction::NorthWest | Direction::SouthWest => -1,
            Direction::East | Direction::NorthEast | Direction::SouthEast => 1,
            Direction::North | Direction::South => 0,
        }
    }

    /// Sign of the step on `y`: -1 towards the north, 1 towards the south.
    pub open spec fn dy(self) -> int {
        match self {
            Direction::North | Direction::NorthWest | Direction::NorthEast => -1,
            Direction::South | Direction::SouthWest | Direction::SouthEast => 1,
            Direction::West | Direction::East => 0,
        }
    }
}

/// The largest `x` at which the player's rectangle is inside the dungeon.
pub open spec fn max_x() -> u32 {
    (DUNGEON_WIDTH - PLAYER_WIDTH) as u32
}

/// The largest `y` at which the player's rectangle is inside the dungeon.
pub open spec fn max_y() -> u32 {
    (DUNGEON_HEIGHT - PLAYER_HEIGHT) as u32
}

/// The player's rectangle at `pos` lies inside the dungeon.
pub open spec fn in_dungeon(pos: PlayerPos) -> bool {
    pos.0 <= max_x() && pos.1 <= max_y()
}

/// One coordinate after a step of sign `delta`: a step down stops at 0, a
/// step up stops at `limit`, and no step leaves the coordinate as it is.
pub open spec fn slide(coord: u32, delta: int, limit: u32) -> u32 {
    if delta < 0 {
        if coord >= PLAYER_SPEED {
            (coord - PLAYER_SPEED) as u32
        } else {
            0
        }
    } else if delta > 0 {
        if coord + PLAYER_SPEED < limit {
            (coord + PLAYER_SPEED) as u32
        } else {
            limit
        }
    } else {
        coord
    }
}

/// The position one step from `pos` in direction `dir`. Both coordinates
/// change at once, each by its own rule.
pub open spec fn moved(pos: PlayerPos, dir: Direction) -> PlayerPos {
    PlayerPos(slide(pos.0, dir.dx(), max_x()), slide(pos.1, dir.dy(), max_y()))
}

/// The position `steps` steps from `pos`, all in direction `dir`.
pub open spec fn moved_times(pos: PlayerPos, dir: Direction, steps: nat) -> PlayerPos
    decreases steps,
{
    if steps == 0 {
        pos
    } else {
        moved(moved_times(pos, dir, (steps - 1) as nat), dir)
    }
}

/// What one character of a key means.
pub open spec fn char_direction(c: char) -> Option<Direction> {
    if c == 'h' {
        Some(Direction::West)
    } else if c == 'l' {
        Some(Direction::East)
    } else if c == 'k' {
        Some(Direction::North)
    } else if c == 'j' {
        Some(Direction::South)
    } else if c == 'y' {
        Some(Direction::NorthWest)
    } else if c == 'u' {
        Some(Direction::NorthEast)
    } else if c == 'b' {
        Some(Direction::SouthWest)
    } else if c == 'n' {
        Some(Direction::SouthEast)
    } else {
        None
    }
}

/// What a key means: a direction for the eight keys of one lower-case
/// letter, nothing for every other text.
pub open spec fn key_direction(key: Seq<char>) -> Option<Direction> {
    if key.len() == 1 {
        char_direction(key[0])
    } else {
        None
    }
}

/// The position after the key `key` was pressed at `pos`.
pub open spec fn position_after_key(pos: PlayerPos, key: Seq<char>) -> PlayerPos {
    match key_direction(key) {
        Some(dir) => moved(pos, dir),
        None => pos,
    }
}

/// Reads a key as a direction.
pub fn direction_of_key(key: &str) -> (dir: Option<Direction>)
    ensures
        dir == key_direction(key@),
{
    if key.unicode_len() != 1 {
        return None;
    }
    let c: char = key.get_char(0);
    if c == 'h' {
        Some(Direction::West)
    } else if c == 'l' {
        Some(Direction::East)
    } else if c == 'k' {
        Some(Direction::North)
    } else if c == 'j' {
        Some(Direction::South)
    } else if c == 'y' {
        Some(Direction::NorthWest)
    } else if c == 'u' {
        Some(Direction::NorthEast)
    } else if c == 'b' {
        Some(Direction::SouthWest)
    } else if c == 'n' {
        Some(Direction::SouthEast)
    } else {
        None
    }
}

/// One coordinate one step towards `limit`, never past it.
fn step_up(coord: u32, limit: u32) -> (next: u32)
    ensures
        next == slide(coord, 1, limit),
{
    let raised: u32 = coord.saturating_add(PLAYER_SPEED);
    if raised < limit {
        raised
    } else {
        limit
    }
}

/// Moves the player one step in direction `dir`.
pub fn advance(pos: PlayerPos, dir: Direction) -> (next: PlayerPos)
    ensures
        next == moved(pos, dir),
        in_dungeon(pos) ==> in_dungeon(next),
{
    let x: u32 = match dir {
        Direction::West | Direction::NorthWest | Direction::SouthWest => pos.0.saturating_sub(
            PLAYER_SPEED,
        ),
        Direction::East | Direction::NorthEast | Direction::SouthEast => step_up(
            pos.0,
            DUNGEON_WIDTH - PLAYER_WIDTH,
        ),
        Direction::North | Direction::South => pos.0,
    };
    let y: u32 = match dir {
        Direction::North | Direction::NorthWest | Direction::NorthEast => pos.1.saturating_sub(
            PLAYER_SPEED,
        ),
        Direction::South | Direction::SouthWest | Direction::SouthEast => step_up(
            pos.1,
            DUNGEON_HEIGHT - PLAYER_HEIGHT,
        ),
        Direction::West | Direction::East => pos.1,
    };
    PlayerPos(x, y)
}

/// Moves the player as the key `key` asks; a key that names no direction
/// leaves the player in place.
pub fn update_position(pos: PlayerPos, key: &str) -> (next: PlayerPos)
    ensures
        next == position_after_key(pos, key@),
        in_dungeon(pos) ==> in_dungeon(next),
{
    match direction_of_key(key) {
        Some(dir) => advance(pos, dir),
        None => pos,
    }
}

/// Steps to the north-west, from any position, lower each coordinate by one
/// step at a time until it is 0 and leave it there: after enough steps the
/// player stands at the origin.
pub proof fn lemma_north_west_reaches_origin(pos: PlayerPos, steps: nat)
    ensures
        moved_times(pos, Direction::NorthWest, steps).0 == if pos.0 >= steps * PLAYER_SPEED {
            pos.0 - steps * PLAYER_SPEED
        } else {
            0
        },
        moved_times(pos, Direction::NorthWest, steps).1 == if pos.1 >= steps * PLAYER_SPEED {
            pos.1 - steps * PLAYER_SPEED
        } else {
            0
        },
        steps * PLAYER_SPEED >= pos.0 && steps * PLAYER_SPEED >= pos.1 ==> moved_times(
            pos,
            Direction::NorthWest,
            steps,
        ) == PlayerPos(0, 0),
    decreases steps,
{
    if steps > 0 {
        lemma_north_west_reaches_origin(pos, (steps - 1) as nat);
    }
}

/// A diagonal step is the step of its two cardinal parts, each taken from
/// the position before the step: what one axis does never depends on the
/// other, so a coordinate held at its bound does not hold the other back.
pub proof fn lemma_diagonal_moves_both_axes(pos: PlayerPos)
    ensures
        moved(pos, Direction::NorthWest) == PlayerPos(
            moved(pos, Direction::West).0,
            moved(pos, Direction::North).1,
        ),
        moved(pos, Direction::NorthEast) == PlayerPos(
            moved(pos, Direction::East).0,
            moved(pos, Direction::North).1,
        ),
        moved(pos, Direction::SouthWest) == PlayerPos(
            moved(pos, Direction::West).0,
            moved(pos, Direction::South).1,
        ),
        moved(pos, Direction::SouthEast) == PlayerPos(
            moved(pos, Direction::East).0,
            moved(pos, Direction::South).1,
        ),
{
}

} // verus!
