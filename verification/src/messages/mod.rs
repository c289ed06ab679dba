//! What the bot does about messages: silencing, masked links, virus scans.
pub mod handle_message;
pub mod linkmask;
pub mod masked_link;
pub mod scan;
pub mod silence;
