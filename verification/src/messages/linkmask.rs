//! The anti-link-mask feature: users who post masked links collect offenses,
//! and past a limit the configured action is taken against them.
use vstd::prelude::*;
use std::collections::{HashMap, HashSet};
use crate::utils::ActionKind;
use crate::handler_struct::{GuildInstance, GuildInstances, GuildSettingsView, GuildView};
use crate::messages::silence::SilenceView;

verus! {

/// Per guild settings of the anti-link-mask feature.
pub struct ALinkmaskSettings {
    /// Whether the feature is on.
    pub active: bool,
    /// Users exempt from the feature.
    pub whitelist: HashSet<u64>,
    /// The number of offenses a user may collect before the action is taken.
    pub maxoffenses: i64,
    /// The action taken once a user has more offenses than `maxoffenses`.
    pub action: ActionKind,
}

/// The abstract content of [`ALinkmaskSettings`].
pub ghost struct LinkmaskSettingsView {
    pub active: bool,
    pub whitelist: Set<u64>,
    pub maxoffenses: i64,
    pub action: ActionKind,
}

impl View for ALinkmaskSettings {
    type V = LinkmaskSettingsView;

    open spec fn view(&self) -> LinkmaskSettingsView {
        LinkmaskSettingsView {
            active: self.active,
            whitelist: self.whitelist@,
            maxoffenses: self.maxoffenses,
            action: self.action,
        }
    }
}

/// Settings of a guild that has not changed them: on, nobody exempt, action
/// after the third offense, and the action is a kick.
pub open spec fn initial_linkmask_settings() -> LinkmaskSettingsView {
    LinkmaskSettingsView {
        active: true,
        whitelist: Set::empty(),
        maxoffenses: 3,
        action: ActionKind::Kick,
    }
}

impl ALinkmaskSettings {
    pub fn new() -> (r: Self)
        ensures
            r@ == initial_linkmask_settings(),
    {
        ALinkmaskSettings {
            active: true,
            whitelist: HashSet::new(),
            maxoffenses: 3,
            action: ActionKind::Kick,
        }
    }
}

/// Per guild record of the anti-link-mask feature: offenses per user.
pub struct ALinkmaskData {
    pub offenses: HashMap<u64, i64>,
}

impl View for ALinkmaskData {
    type V = Map<u64, i64>;

    open spec fn view(&self) -> Map<u64, i64> {
        self.offenses@
    }
}

impl ALinkmaskData {
    pub fn new() -> (r: Self)
        ensures
            r@ == Map::<u64, i64>::empty(),
    {
        ALinkmaskData { offenses: HashMap::new() }
    }
}

} // verus!

verus! {

/// What the moderators' side must do about a user who posted a masked link.
#[derive(Clone, Copy, PartialEq, Eq, Structural, Debug)]
pub enum LinkmaskAction {
    /// Nothing beyond what the state change records.
    Nothing,
    /// Kick the user from the guild.
    Kick,
    /// Ban the user, deleting their messages of the last `delete_message_days` days.
    Ban { delete_message_days: u8 },
}

/// The number of offenses recorded for `user`.
pub open spec fn offense_count(offenses: Map<u64, i64>, user: u64) -> int {
    if offenses.contains_key(user) {
        offenses[user] as int
    } else {
        0
    }
}

/// Masked links of `author` are not held against them: the feature is off, or
/// the author is superwhitelisted or on the guild's whitelist.
pub open spec fn linkmask_exempt(g: GuildView, author: u64, superwhitelisted: Seq<u64>) -> bool {
    ||| !g.settings.lmsettings.active
    ||| superwhitelisted.contains(author)
    ||| g.settings.lmsettings.whitelist.contains(author)
}

/// The guild after `author` posted a masked link, and the action owed: unless
/// exempt, the author's offense count goes up by one, and once it is above the
/// limit the configured action is taken (silencing is a change of the guild's
/// settings; kicks and bans are owed to the moderators' side).
pub open spec fn linkmask_outcome(g: GuildView, author: u64, superwhitelisted: Seq<u64>) -> (
    GuildView,
    LinkmaskAction,
) {
    if linkmask_exempt(g, author, superwhitelisted) {
        (g, LinkmaskAction::Nothing)
    } else {
        let count = offense_count(g.offenses, author) + 1;
        let counted = GuildView { offenses: g.offenses.insert(author, count as i64), ..g };
        let lm = g.settings.lmsettings;
        if count > lm.maxoffenses {
            match lm.action {
                ActionKind::Nothing => (counted, LinkmaskAction::Nothing),
                ActionKind::Silence => {
                    let s = counted.settings;
                    let silence = SilenceView {
                        users: s.silence_settings.users.insert(author),
                        ..s.silence_settings
                    };
                    (
                        GuildView {
                            settings: GuildSettingsView { silence_settings: silence, ..s },
                            ..counted
                        },
                        LinkmaskAction::Nothing,
                    )
                },
                ActionKind::Kick => (counted, LinkmaskAction::Kick),
                ActionKind::Ban => (counted, LinkmaskAction::Ban { delete_message_days: 0 }),
                ActionKind::HardBan => (counted, LinkmaskAction::Ban { delete_message_days: 7 }),
            }
        } else {
            (counted, LinkmaskAction::Nothing)
        }
    }
}

/// Whether masked links of `author_id` are exempt in the guild `gi`, as
/// [`linkmask_exempt`] says.
pub fn linkmask_exempt_user(gi: &GuildInstance, author_id: u64, superwhitelisted_ids: &[u64]) -> (r:
    bool)
    ensures
        r == linkmask_exempt(gi@, author_id, superwhitelisted_ids@),
{
    broadcast use vstd::std_specs::hash::group_hash_axioms;

    !gi.gs.lmsettings.active || crate::text::id_listed(superwhitelisted_ids, author_id)
        || gi.gs.lmsettings.whitelist.contains(&author_id)
}

/// Records that `author_id` posted a masked link in the guild `guild_id`, and
/// returns the action owed.
pub fn alinkmask_handle(
    guild_instances: &mut GuildInstances,
    guild_id: u64,
    author_id: u64,
    superwhitelisted_ids: &[u64],
) -> (r: LinkmaskAction)
    requires
        old(guild_instances)@.contains_key(guild_id),
        !linkmask_exempt(old(guild_instances)@[guild_id], author_id, superwhitelisted_ids@)
            ==> offense_count(old(guild_instances)@[guild_id].offenses, author_id) < i64::MAX,
    ensures
        ({
            let (g, act) = linkmask_outcome(
                old(guild_instances)@[guild_id],
                author_id,
                superwhitelisted_ids@,
            );
            final(guild_instances)@ == old(guild_instances)@.insert(guild_id, g) && r == act
        }),
{
    broadcast use vstd::std_specs::hash::group_hash_axioms;

    let mut gi = guild_instances.take(guild_id);
    if linkmask_exempt_user(&gi, author_id, superwhitelisted_ids) {
        guild_instances.put(guild_id, gi);
        proof {
            assert(final(guild_instances)@ =~= old(guild_instances)@);
        }
        return LinkmaskAction::Nothing;
    }
    let previous: i64 = match gi.gd.lmdata.offenses.get(&author_id) {
        Some(c) => *c,
        None => 0,
    };
    let count = previous + 1;
    gi.gd.lmdata.offenses.insert(author_id, count);
    let mut action = LinkmaskAction::Nothing;
    if count > gi.gs.lmsettings.maxoffenses {
        match gi.gs.lmsettings.action {
            ActionKind::Nothing => {},
            ActionKind::Silence => {
                gi.gs.silence_settings.users.insert(author_id);
            },
            ActionKind::Kick => {
                action = LinkmaskAction::Kick;
            },
            ActionKind::Ban => {
                action = LinkmaskAction::Ban { delete_message_days: 0 };
            },
            ActionKind::HardBan => {
                action = LinkmaskAction::Ban { delete_message_days: 7 };
            },
        }
    }
    guild_instances.put(guild_id, gi);
    action
}

} // verus!
