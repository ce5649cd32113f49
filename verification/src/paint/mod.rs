//! The paint state. This is the screen where you paint on the canvas with other people.

pub mod bus;
pub mod chunks;
pub mod downloads;
pub mod frame;
pub mod laws;
pub mod log;
pub mod message;
pub mod script;
pub mod shortcuts;
pub mod state;
pub mod toolbar;
pub mod ui;
