//! The rules of a tile-based platformer: contact bookkeeping for ground and ladders,
//! the player's movement, jump and animation choices, decoding of level grids, and
//! the progression from level to level.

pub mod audio;
pub mod constants;
pub mod contact;
pub mod game_flow;
pub mod grid;
pub mod player;
