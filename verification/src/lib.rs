//! Verified core of a small first-person game: key bindings and the
//! per-frame input state, the settings menu and the controls overlay, the
//! per-frame dispatch between rebinding, menu and gameplay, what the
//! player's hands hold, and which enemies a thrown object has hit.

pub mod game;
pub mod input;
pub mod menu;
pub mod world;
