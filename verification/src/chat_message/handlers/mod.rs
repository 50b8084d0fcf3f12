//! Reactions to group messages.
pub mod group_chat;
pub mod tool;
