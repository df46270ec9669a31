//! The bot's commands.

pub mod rank;
pub mod puzzle;
pub mod count;
pub mod archive;
pub mod clear;
pub mod echo;
pub mod fractal;
pub mod help;
pub mod prompt;
pub mod unknown;
