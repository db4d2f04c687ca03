//! Rules of a single-guild moderation bot: persisted identifier lists, the
//! pool of quarantine rooms, and what the bot decides when events arrive.
//! Everything here works on plain values; talking to the chat platform and
//! to the key-value store is left to the program that embeds this library.

pub mod checks;
pub mod config;
pub mod constants;
pub mod context_commands;
pub mod data_enums;
pub mod embed;
pub mod extensions;
pub mod log_channel;
pub mod message_component_interactions;
pub mod model;
pub mod slash_commands;
pub mod state;
pub mod text;
pub mod utils;
