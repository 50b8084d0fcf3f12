//! The cat-girl chat plugin: configuration, commands, group chat routing and
//! the role-play memory.
pub mod command_exec;
pub mod config;
pub mod handlers;
pub mod ml;
pub mod tools;
