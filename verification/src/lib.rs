//! Verified core of a Discord anti-phishing and antivirus moderation bot.
pub mod handler_struct;
pub mod interactions;
pub mod laws;
pub mod messages;
pub mod text;
pub mod utils;
