//! A turn-based dungeon crawler on a bounded grid: a deterministic obstacle
//! generator, rectangle collision, clamped player movement and the life
//! cycle of wall batches.

pub mod config;
pub mod game;
pub mod geometry;
pub mod movement;
pub mod random;
pub mod walls;

pub use crate::config::{
    DUNGEON_HEIGHT, DUNGEON_WIDTH, PLAYER_HEIGHT, PLAYER_SPEED, PLAYER_WIDTH, WALL_COUNT,
    WALL_HEIGHT, WALL_WIDTH,
};
pub use crate::game::Game;
pub use crate::geometry::{is_player_touching_wall, PlayerPos, WallPos};
pub use crate::movement::{advance, direction_of_key, update_position, Direction};
pub use crate::random::Random;
pub use crate::walls::{add_score, tag_walls, update_walls_and_score};
