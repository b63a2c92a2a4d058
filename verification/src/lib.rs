//! The decision core of the rift tiling window manager.
//!
//! The reactor keeps the picture of what the system and the layout look like,
//! and says what is to be done about each event. Everything that only the
//! system or the layout engine can answer reaches it as plain values, and
//! everything that it wants done leaves it as plain values.
pub mod cli;
pub mod command;
pub mod event;
pub mod geometry;
pub mod ids;
pub mod json;
pub mod laws;
pub mod reactor;
pub mod requests;
pub mod search;
pub mod state;
pub mod surroundings;
pub mod table;
pub mod text;
