//! The front-end's side of the coordination: starting the overlay daemon,
//! the order of a game launch, the command that starts a game, storage
//! media and dialogs.

pub mod cart;
pub mod dialog;
pub mod launch;
pub mod launcher;
pub mod playtime_log;
pub mod save;
pub mod storage;
pub mod types;
