//! Coordination core of the Kazeta console runtime: the overlay's state
//! machines, the hotkey daemon's decisions and the message contract that
//! ties the processes together.

pub mod achievements;
pub mod bios;
pub mod client;
pub mod controllers;
pub mod daemon;
pub mod decode;
pub mod hotkeys;
pub mod input;
pub mod ipc;
pub mod menu_config;
pub mod paths;
pub mod performance;
pub mod playtime;
pub mod ra;
pub mod search;
pub mod state;
pub mod text;
pub mod theme;
pub mod toast;
pub mod wire;
