//! Player progression and persistence core of a game-network backend:
//! score extraction, levels and experience, alt-account resolution and
//! name uniqueness, over plain record types.
pub mod decimal;
pub mod identity;
pub mod persistence;
pub mod player;
pub mod progression;
pub mod punishment;
pub mod stats;
pub mod string_map;
