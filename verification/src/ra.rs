//! What the console shares with the RetroAchievements service: consoles
//! and their numbers, achievement records, credentials, custom game names
//! and the hashing of ROM images.

pub mod auth;
pub mod cache;
pub mod game_names;
pub mod hash;
pub mod notify;
pub mod types;
