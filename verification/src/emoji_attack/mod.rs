//! Automatic emoji reactions: in chosen groups, chosen members get emoji
//! reactions on every message.
pub mod config;
pub mod data;
pub mod handle;
