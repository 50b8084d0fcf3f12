//! The logic of a chat bot and its plugins: command parsing and dispatch
//! decisions, the role-play chat memory window, group moderation counters,
//! automatic emoji reactions, and the configuration each plugin reads.
pub mod bot_check;
pub mod chat_message;
pub mod command_exec;
pub mod command_exec_context;
pub mod dev_utils;
pub mod event;
pub mod text;
pub mod emoji_attack;
