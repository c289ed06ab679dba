//! Properties of the bot's behaviour that span several calls or hold of every
//! input.
use vstd::prelude::*;
use crate::interactions::commands::{CommandView, command_table, parse_action};
use crate::interactions::commands::{CommandValue, command_outcome, guild_command, is_guild_command};
use crate::utils::ActionKind;
use crate::handler_struct::GuildView;
use crate::messages::linkmask::{LinkmaskAction, linkmask_exempt, linkmask_outcome, offense_count};
use crate::messages::silence::{SilenceView, silenced};

verus! {

/// The command names are pairwise different.
pub proof fn lemma_command_names_distinct()
    ensures
        "silence"@ != "silencemessage"@,
        "silence"@ != "alinkmasktoggle"@,
        "silence"@ != "alinkmaskwhitelist"@,
        "silence"@ != "alinkmaskwhitelistclear"@,
        "silence"@ != "alinkmaskmaxoffenses"@,
        "silence"@ != "alinkmaskresetall"@,
        "silence"@ != "alinkmaskresetoffenses"@,
        "silence"@ != "alinkmaskaction"@,
        "silence"@ != "scannertoggle"@,
        "silence"@ != "scanfile"@,
        "silencemessage"@ != "alinkmasktoggle"@,
        "silencemessage"@ != "alinkmaskwhitelist"@,
        "silencemessage"@ != "alinkmaskwhitelistclear"@,
        "silencemessage"@ != "alinkmaskmaxoffenses"@,
        "silencemessage"@ != "alinkmaskresetall"@,
        "silencemessage"@ != "alinkmaskresetoffenses"@,
        "silencemessage"@ != "alinkmaskaction"@,
        "silencemessage"@ != "scannertoggle"@,
        "silencemessage"@ != "scanfile"@,
        "alinkmasktoggle"@ != "alinkmaskwhitelist"@,
        "alinkmasktoggle"@ != "alinkmaskwhitelistclear"@,
        "alinkmasktoggle"@ != "alinkmaskmaxoffenses"@,
        "alinkmasktoggle"@ != "alinkmaskresetall"@,
        "alinkmasktoggle"@ != "alinkmaskresetoffenses"@,
        "alinkmasktoggle"@ != "alinkmaskaction"@,
        "alinkmasktoggle"@ != "scannertoggle"@,
        "alinkmasktoggle"@ != "scanfile"@,
        "alinkmaskwhitelist"@ != "alinkmaskwhitelistclear"@,
        "alinkmaskwhitelist"@ != "alinkmaskmaxoffenses"@,
        "alinkmaskwhitelist"@ != "alinkmaskresetall"@,
        "alinkmaskwhitelist"@ != "alinkmaskresetoffenses"@,
        "alinkmaskwhitelist"@ != "alinkmaskaction"@,
        "alinkmaskwhitelist"@ != "scannertoggle"@,
        "alinkmaskwhitelist"@ != "scanfile"@,
        "alinkmaskwhitelistclear"@ != "alinkmaskmaxoffenses"@,
        "alinkmaskwhitelistclear"@ != "alinkmaskresetall"@,
        "alinkmaskwhitelistclear"@ != "alinkmaskresetoffenses"@,
        "alinkmaskwhitelistclear"@ != "alinkmaskaction"@,
        "alinkmaskwhitelistclear"@ != "scannertoggle"@,
        "alinkmaskwhitelistclear"@ != "scanfile"@,
        "alinkmaskmaxoffenses"@ != "alinkmaskresetall"@,
        "alinkmaskmaxoffenses"@ != "alinkmaskresetoffenses"@,
        "alinkmaskmaxoffenses"@ != "alinkmaskaction"@,
        "alinkmaskmaxoffenses"@ != "scannertoggle"@,
        "alinkmaskmaxoffenses"@ != "scanfile"@,
        "alinkmaskresetall"@ != "alinkmaskresetoffenses"@,
        "alinkmaskresetall"@ != "alinkmaskaction"@,
        "alinkmaskresetall"@ != "scannertoggle"@,
        "alinkmaskresetall"@ != "scanfile"@,
        "alinkmaskresetoffenses"@ != "alinkmaskaction"@,
        "alinkmaskresetoffenses"@ != "scannertoggle"@,
        "alinkmaskresetoffenses"@ != "scanfile"@,
        "alinkmaskaction"@ != "scannertoggle"@,
        "alinkmaskaction"@ != "scanfile"@,
        "scannertoggle"@ != "scanfile"@,
{
        reveal_strlit("silence");
        assert("silence"@.len() == 7);
        reveal_strlit("silencemessage");
        assert("silencemessage"@.len() == 14);
        reveal_strlit("alinkmasktoggle");
        assert("alinkmasktoggle"@.len() == 15);
        reveal_strlit("alinkmaskwhitelist");
        assert("alinkmaskwhitelist"@.len() == 18);
        reveal_strlit("alinkmaskwhitelistclear");
        assert("alinkmaskwhitelistclear"@.len() == 23);
        reveal_strlit("alinkmaskmaxoffenses");
        assert("alinkmaskmaxoffenses"@.len() == 20);
        reveal_strlit("alinkmaskresetall");
        assert("alinkmaskresetall"@.len() == 17);
        reveal_strlit("alinkmaskresetoffenses");
        assert("alinkmaskresetoffenses"@.len() == 22);
        reveal_strlit("alinkmaskaction");
        assert("alinkmaskaction"@.len() == 15);
        assert("alinkmaskaction"@[9] != "alinkmasktoggle"@[9]);
        reveal_strlit("scannertoggle");
        assert("scannertoggle"@.len() == 13);
        reveal_strlit("scanfile");
        assert("scanfile"@.len() == 8);
}

/// A user is either silenced or not: issuing `silence` twice for the same user
/// leaves the guild as it was, and the two answers differ.
pub proof fn law_silence_toggle_twice(g: GuildView, user: u64)
    ensures
        ({
            let opts = seq![CommandValue::User(user)];
            let (g1, r1) = guild_command(g, "silence"@, opts);
            let (g2, r2) = guild_command(g1, "silence"@, opts);
            g2 == g && (r1 == "User silenced!"@ <==> r2 == "User unsilenced!"@)
        }),
{
    lemma_command_names_distinct();
    let opts = seq![CommandValue::User(user)];
    let s = g.settings.silence_settings;
    let (g1, r1) = guild_command(g, "silence"@, opts);
    let (g2, r2) = guild_command(g1, "silence"@, opts);
    if s.users.contains(user) {
        assert(s.users.remove(user).insert(user) =~= s.users);
    } else {
        assert(s.users.insert(user).remove(user) =~= s.users);
    }
    assert(g2.settings.silence_settings =~= s);
    assert(g2.settings =~= g.settings);
}

/// Issuing `alinkmaskwhitelist` twice for the same user leaves the guild as it was.
pub proof fn law_whitelist_toggle_twice(g: GuildView, user: u64)
    ensures
        ({
            let opts = seq![CommandValue::User(user)];
            guild_command(guild_command(g, "alinkmaskwhitelist"@, opts).0, "alinkmaskwhitelist"@, opts).0 == g
        }),
{
    lemma_command_names_distinct();
    let lm = g.settings.lmsettings;
    if lm.whitelist.contains(user) {
        assert(lm.whitelist.remove(user).insert(user) =~= lm.whitelist);
    } else {
        assert(lm.whitelist.insert(user).remove(user) =~= lm.whitelist);
    }
}

/// Issuing `alinkmasktoggle` twice, or `scannertoggle` twice, leaves the guild
/// as it was; each answer says the state the feature was switched to.
pub proof fn law_feature_toggles_twice(g: GuildView)
    ensures
        guild_command(guild_command(g, "alinkmasktoggle"@, seq![]).0, "alinkmasktoggle"@, seq![]).0 == g,
        guild_command(guild_command(g, "scannertoggle"@, seq![]).0, "scannertoggle"@, seq![]).0 == g,
        ({
            let (g1, r) = guild_command(g, "alinkmasktoggle"@, seq![]);
            r == (if g1.settings.lmsettings.active {
                "Antilinkmask is turned on!"@
            } else {
                "Antilinkmask is turned off!"@
            })
        }),
        ({
            let (g1, r) = guild_command(g, "scannertoggle"@, seq![]);
            r == (if g1.settings.scanner_active {
                "Scanner turned on!"@
            } else {
                "Scanner turned off!"@
            })
        }),
{
    lemma_command_names_distinct();
}

/// A caller who is not an administrator changes nothing with any command.
pub proof fn law_non_admin_changes_nothing(
    guilds: Map<u64, GuildView>,
    guild_id: u64,
    name: Seq<char>,
    opts: Seq<CommandValue>,
)
    ensures
        command_outcome(guilds, guild_id, name, false, opts).0 == guilds,
{
}

/// The commands the bot answers with more than "Unimplemented Command".
pub open spec fn handled_command(name: Seq<char>) -> bool {
    name == "scanfile"@ || is_guild_command(name)
}

/// The commands the bot registers are exactly the ones it handles.
pub proof fn law_registered_commands_are_handled()
    ensures
        forall|i: int| 0 <= i < command_table().len() ==> handled_command(#[trigger] command_table()[i].name),
        forall|name: Seq<char>| handled_command(name) ==> exists|i: int|
            0 <= i < command_table().len() && #[trigger] command_table()[i].name == name,
{
    let t = command_table();
    assert(t.len() == 11);
    assert(t[0].name == "alinkmasktoggle"@);
    assert(t[1].name == "alinkmaskwhitelist"@);
    assert(t[2].name == "alinkmaskwhitelistclear"@);
    assert(t[3].name == "alinkmaskmaxoffenses"@);
    assert(t[4].name == "alinkmaskresetoffenses"@);
    assert(t[5].name == "alinkmaskresetall"@);
    assert(t[6].name == "alinkmaskaction"@);
    assert(t[7].name == "scannertoggle"@);
    assert(t[8].name == "scanfile"@);
    assert(t[9].name == "silence"@);
    assert(t[10].name == "silencemessage"@);
    assert forall|name: Seq<char>| handled_command(name) implies exists|i: int|
        0 <= i < command_table().len() && #[trigger] command_table()[i].name == name by {
        if name == t[0].name {
        } else if name == t[1].name {
        } else if name == t[2].name {
        } else if name == t[3].name {
        } else if name == t[4].name {
        } else if name == t[5].name {
        } else if name == t[6].name {
        } else if name == t[7].name {
        } else if name == t[8].name {
        } else if name == t[9].name {
        } else {
            assert(name == t[10].name);
        }
    }
}

/// A masked link of a user who is exempt (the feature off, or the user
/// superwhitelisted or whitelisted) changes nothing and is not acted on.
pub proof fn law_exempt_users_untouched(g: GuildView, author: u64, superwhitelisted: Seq<u64>)
    requires
        linkmask_exempt(g, author, superwhitelisted),
    ensures
        linkmask_outcome(g, author, superwhitelisted) == (g, LinkmaskAction::Nothing),
{
}

/// Each masked link of a user who is not exempt adds exactly one offense, and
/// the user is kicked or banned only once their count is above the limit.
pub proof fn law_offense_counting(g: GuildView, author: u64, superwhitelisted: Seq<u64>)
    requires
        !linkmask_exempt(g, author, superwhitelisted),
        offense_count(g.offenses, author) < i64::MAX,
    ensures
        ({
            let (g1, act) = linkmask_outcome(g, author, superwhitelisted);
            &&& offense_count(g1.offenses, author) == offense_count(g.offenses, author) + 1
            &&& forall|u: u64| u != author ==> offense_count(g1.offenses, u) == offense_count(g.offenses, u)
            &&& act != LinkmaskAction::Nothing ==> offense_count(g1.offenses, author)
                > g.settings.lmsettings.maxoffenses
        }),
{
}

/// After `alinkmaskresetoffenses` for a user, the user's next masked link
/// (when not exempt) counts as their first offense.
pub proof fn law_reset_then_first_offense(g: GuildView, user: u64, superwhitelisted: Seq<u64>)
    requires
        !linkmask_exempt(g, user, superwhitelisted),
    ensures
        ({
            let g1 = guild_command(g, "alinkmaskresetoffenses"@, seq![CommandValue::User(user)]).0;
            offense_count(linkmask_outcome(g1, user, superwhitelisted).0.offenses, user) == 1
        }),
{
    lemma_command_names_distinct();
    let g1 = guild_command(g, "alinkmaskresetoffenses"@, seq![CommandValue::User(user)]).0;
    assert(g1.settings == g.settings);
}

/// A superwhitelisted user's messages are never removed by silencing.
pub proof fn law_superwhitelisted_never_silenced(s: SilenceView, author: u64, superwhitelisted: Seq<u64>)
    requires
        superwhitelisted.contains(author),
    ensures
        !silenced(s, author, superwhitelisted),
{
}

/// Punishing by silence puts the offender among the silenced users, and no
/// masked link ever takes anyone out of the silenced users.
pub proof fn law_silence_punishment_silences(g: GuildView, author: u64, superwhitelisted: Seq<u64>)
    ensures
        ({
            let g1 = linkmask_outcome(g, author, superwhitelisted).0;
            &&& !linkmask_exempt(g, author, superwhitelisted) && offense_count(g.offenses, author) + 1
                > g.settings.lmsettings.maxoffenses && g.settings.lmsettings.action
                == ActionKind::Silence ==> g1.settings.silence_settings.users.contains(author)
            &&& forall|u: u64| #[trigger]
                g.settings.silence_settings.users.contains(u)
                    ==> g1.settings.silence_settings.users.contains(u)
        }),
{
}

/// The values offered for the `alinkmaskaction` command are pairwise different.
pub proof fn lemma_action_words_distinct()
    ensures
        "none"@ != "silence"@,
        "none"@ != "kick"@,
        "none"@ != "ban"@,
        "none"@ != "hban"@,
        "silence"@ != "kick"@,
        "silence"@ != "ban"@,
        "silence"@ != "hban"@,
        "kick"@ != "ban"@,
        "kick"@ != "hban"@,
        "ban"@ != "hban"@,
{
    reveal_strlit("none");
    reveal_strlit("silence");
    reveal_strlit("kick");
    reveal_strlit("ban");
    reveal_strlit("hban");
    assert("none"@.len() == 4 && "kick"@.len() == 4 && "hban"@.len() == 4);
    assert("silence"@.len() == 7 && "ban"@.len() == 3);
    assert("none"@[0] != "kick"@[0] && "none"@[0] != "hban"@[0] && "kick"@[0] != "hban"@[0]);
}

/// `alinkmaskaction` sets the action its value names, whatever the action was
/// before: `none` no action, `silence`, `kick`, `ban`, and `hban` a hard ban.
pub proof fn law_action_command_sets_named_action(g: GuildView, value: String)
    ensures
        ({
            let action = guild_command(
                g,
                "alinkmaskaction"@,
                seq![CommandValue::Text(value)],
            ).0.settings.lmsettings.action;
            &&& value@ == "none"@ ==> action == ActionKind::Nothing
            &&& value@ == "silence"@ ==> action == ActionKind::Silence
            &&& value@ == "kick"@ ==> action == ActionKind::Kick
            &&& value@ == "ban"@ ==> action == ActionKind::Ban
            &&& value@ == "hban"@ ==> action == ActionKind::HardBan
        }),
{
    lemma_command_names_distinct();
    lemma_action_words_distinct();
}

/// `scanfile` is open to every caller: it leads to a scan of the attachment
/// and changes no guild, whether the caller is an administrator or not.
pub proof fn law_scanfile_scans_for_everyone(
    guilds: Map<u64, GuildView>,
    guild_id: u64,
    is_admin: bool,
    opts: Seq<CommandValue>,
)
    ensures
        command_outcome(guilds, guild_id, "scanfile"@, is_admin, opts) == (guilds, None::<Seq<char>>),
{
}

/// The label under which an action is offered.
pub open spec fn action_label(a: ActionKind) -> Seq<char> {
    match a {
        ActionKind::Nothing => "None"@,
        ActionKind::Silence => "Silence"@,
        ActionKind::Kick => "Kick"@,
        ActionKind::Ban => "Ban"@,
        ActionKind::HardBan => "HardBan"@,
    }
}

/// The one option of a command offers every action once per label, and the
/// value behind each label names the action of that label.
pub open spec fn choices_match_labels(c: CommandView) -> bool {
    let choices = c.options[0].choices;
    &&& c.options.len() == 1
    &&& forall|j: int| 0 <= j < choices.len() ==> {
        &&& parse_action(#[trigger] choices[j].1) is Some
        &&& choices[j].0 == action_label(parse_action(choices[j].1)->Some_0)
    }
    &&& forall|a: ActionKind| #[trigger] offers_action(choices, a)
}

/// Some value among `choices` names the action `a`.
pub open spec fn offers_action(choices: Seq<(Seq<char>, Seq<char>)>, a: ActionKind) -> bool {
    exists|j: int| 0 <= j < choices.len() && #[trigger] parse_action(choices[j].1) == Some(a)
}

/// Picking a label in the registered `alinkmaskaction` command sends the value
/// of the action that label names.
pub proof fn law_action_choices_match_labels()
    ensures
        forall|i: int| 0 <= i < command_table().len() && #[trigger] command_table()[i].name
            == "alinkmaskaction"@ ==> choices_match_labels(command_table()[i]),
{
    lemma_command_names_distinct();
    lemma_action_words_distinct();
    let t = command_table();
    assert(t.len() == 11);
    let c = t[6];
    let choices = c.options[0].choices;
    assert(choices.len() == 5);
    assert(choices[0] == ("None"@, "none"@));
    assert(choices[1] == ("Silence"@, "silence"@));
    assert(choices[2] == ("Kick"@, "kick"@));
    assert(choices[3] == ("Ban"@, "ban"@));
    assert(choices[4] == ("HardBan"@, "hban"@));
    assert forall|a: ActionKind| #[trigger] offers_action(choices, a) by {
        match a {
            ActionKind::Nothing => assert(parse_action(choices[0].1) == Some(a)),
            ActionKind::Silence => assert(parse_action(choices[1].1) == Some(a)),
            ActionKind::Kick => assert(parse_action(choices[2].1) == Some(a)),
            ActionKind::Ban => assert(parse_action(choices[3].1) == Some(a)),
            ActionKind::HardBan => assert(parse_action(choices[4].1) == Some(a)),
        }
    }
    assert(choices_match_labels(c));
    assert forall|i: int| 0 <= i < t.len() && #[trigger] t[i].name == "alinkmaskaction"@ implies choices_match_labels(t[i]) by {
        assert(t[0].name == "alinkmasktoggle"@);
        assert(t[1].name == "alinkmaskwhitelist"@);
        assert(t[2].name == "alinkmaskwhitelistclear"@);
        assert(t[3].name == "alinkmaskmaxoffenses"@);
        assert(t[4].name == "alinkmaskresetoffenses"@);
        assert(t[5].name == "alinkmaskresetall"@);
        assert(t[7].name == "scannertoggle"@);
        assert(t[8].name == "scanfile"@);
        assert(t[9].name == "silence"@);
        assert(t[10].name == "silencemessage"@);
    }
}

} // verus!
