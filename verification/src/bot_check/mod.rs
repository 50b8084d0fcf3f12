//! Group moderation: banned words counted per member with automatic mute and
//! kick, and screening of members who invite others.
pub mod data;
pub mod dynconfig;
pub mod handle;
