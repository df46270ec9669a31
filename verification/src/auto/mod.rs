//! Reactions to messages that are not commands.

pub mod notify;
