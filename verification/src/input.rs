//! Key bindings and per-frame input state.

pub mod input_config;
pub mod state;

pub use input_config::{Action, InputConfig, SerdeKeyCode};
pub use state::InputState;
