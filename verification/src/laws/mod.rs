//! What holds of the reactor and of the command line as a whole.
pub mod activation;
pub mod answers;
pub mod basics;
pub mod command_line;
pub mod commands;
pub mod drag;
pub mod events;
pub mod focus;
pub mod form;
pub mod mouse;
pub mod operations;
pub mod picture;
pub mod places;
pub mod rules;
pub mod space_changes;
pub mod spaces;
pub mod windows;
