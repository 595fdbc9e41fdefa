//! Console session state and the scrollback viewport window.

pub mod console;
pub mod data;
pub mod events;
pub mod systems;
