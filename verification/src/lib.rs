//! Per-channel conversation memory for a chat bot that relays messages to a
//! language model: time-ordered message logs, a registry of logs by channel,
//! snapshots of the whole registry, and the assembly of prompts from a log.

pub mod ai;
pub mod commands;
pub mod context;
pub mod model;
pub mod persistence;
pub mod text;
pub mod time;
pub mod utils;
