//! What the bot does about an incoming guild message, apart from the virus
//! scan of its attachments.
use vstd::prelude::*;
use crate::handler_struct::GuildInstances;
use crate::messages::linkmask::{LinkmaskAction, alinkmask_handle, linkmask_exempt, linkmask_outcome, offense_count};
use crate::messages::masked_link::{contains_masked_link, contains_masked_links};
use crate::messages::silence::{SilenceVerdict, silence_user, silenced, opt_chars};

verus! {

/// The verdict on a guild message.
pub struct MessageVerdict {
    /// Whether the message goes because its author is silenced.
    pub silence: SilenceVerdict,
    /// What is owed because the message holds a masked link.
    pub linkmask: LinkmaskAction,
    /// Whether the message's attachments are to be scanned for viruses.
    pub scan_attachments: bool,
}

/// Handles a message of `author_id` in the guild `guild_id` with the text
/// `content`: silencing is judged on the guild's settings as the message
/// arrives; then, if the text holds a masked link, the anti-link-mask feature
/// counts it against the author. Attachments are scanned when the guild's
/// scanner is on.
pub fn handle_message(
    guild_instances: &mut GuildInstances,
    guild_id: u64,
    author_id: u64,
    content: &str,
    superwhitelisted_ids: &[u64],
) -> (r: MessageVerdict)
    requires
        old(guild_instances)@.contains_key(guild_id),
        contains_masked_link(content@) && !linkmask_exempt(
            old(guild_instances)@[guild_id],
            author_id,
            superwhitelisted_ids@,
        ) ==> offense_count(old(guild_instances)@[guild_id].offenses, author_id) < i64::MAX,
    ensures
        ({
            let g = old(guild_instances)@[guild_id];
            &&& (r.silence is Remove) == silenced(
                g.settings.silence_settings,
                author_id,
                superwhitelisted_ids@,
            )
            &&& r.silence matches SilenceVerdict::Remove { notice } ==> opt_chars(notice)
                == g.settings.silence_settings.msg
            &&& r.scan_attachments == g.settings.scanner_active
            &&& if contains_masked_link(content@) {
                let (g2, act) = linkmask_outcome(g, author_id, superwhitelisted_ids@);
                final(guild_instances)@ == old(guild_instances)@.insert(guild_id, g2)
                    && r.linkmask == act
            } else {
                final(guild_instances)@ == old(guild_instances)@ && r.linkmask
                    == LinkmaskAction::Nothing
            }
        }),
{
    let (silence, scan_attachments) = match guild_instances.instances.get(&guild_id) {
        Some(gi) => (
            silence_user(gi, author_id, superwhitelisted_ids),
            gi.gs.scanner_settings.active,
        ),
        None => (SilenceVerdict::Keep, false),
    };
    let linkmask = if contains_masked_links(content) {
        alinkmask_handle(guild_instances, guild_id, author_id, superwhitelisted_ids)
    } else {
        LinkmaskAction::Nothing
    };
    MessageVerdict { silence, linkmask, scan_attachments }
}

} // verus!
