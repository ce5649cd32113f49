//! The decision making of NetCanv, an online collaborative paint canvas.
//!
//! - [`protocol`] holds the values that the matchmaker and its peers exchange,
//! - [`matchmaker`] keeps track of open rooms and decides where packets go,
//! - [`paint`] is the state of the screen where people paint together,
//! - [`table`] is the hash table that the other modules store their entries in.

pub mod matchmaker;
pub mod paint;
pub mod protocol;
mod random;
pub mod table;
