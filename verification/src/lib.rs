//! Command logic of a Discord chat bot: argument parsing, reply texts,
//! pagination of channel history, rank reports and chess puzzle sessions.

pub mod text;
pub mod commands;
pub mod auto;
pub mod bot;
