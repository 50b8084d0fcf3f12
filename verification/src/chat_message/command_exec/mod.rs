//! Bot commands: parsing, registration and the command handlers.
pub mod app;
pub mod cmds;
pub mod common;
pub mod shell;
