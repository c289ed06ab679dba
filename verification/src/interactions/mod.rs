//! The bot's slash commands.
pub mod commands;
