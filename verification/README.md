# antiphish_bot

A Discord moderation bot against phishing and malware, with its decision
logic verified in Verus.

- `src/` is the verified library: detection of Markdown masked links
  (`messages/masked_link.rs`), the anti-link-mask offense counting and
  punishments (`messages/linkmask.rs`), silencing (`messages/silence.rs`), the
  per-message verdict (`messages/handle_message.rs`), the tally of a virus scan
  and the reading of ClamAV's replies (`messages/scan.rs`), the slash commands
  and the command table (`interactions/commands.rs`), the per-guild state
  (`handler_struct.rs`), and properties that span several calls (`laws.rs`).
- `app/` is the bot itself: the Discord connection (serenity), downloads
  (reqwest), the ClamAV socket, the JSON save file, and signal handling.
- `tests/` runs the library on concrete inputs; the masked-link detector is
  compared there with the `regex` crate on the pattern
  `\[\s*([^\]]*?)\s*]\(\s*(https?://[^\s)]+)\s*\)`.

The app reads the bot token from `DISCORD_TOKEN` and the users exempt from all
moderation from `SUPERWHITELISTED_IDS` (comma-separated user ids).
