//! The bot's slash commands: how each one changes the guild's state and what
//! the bot answers.
use vstd::prelude::*;
use crate::utils::ActionKind;
use crate::handler_struct::{GuildInstance, GuildInstances, GuildSettingsView, GuildView};
use crate::messages::linkmask::LinkmaskSettingsView;
use crate::messages::silence::SilenceView;
use crate::text::{owned, text_eq};

verus! {

/// The value of a command option.
pub enum CommandValue {
    User(u64),
    Text(String),
    Integer(i64),
    Attachment(u64),
    Other,
}

/// What the bot does in answer to a command.
pub enum CommandOutcome {
    /// Answer, visible to the caller only, with this text.
    Respond(String),
    /// Download and scan the attachment the command names, and report.
    ScanAttachment,
}

/// The text of an outcome; `None` for a scan.
pub open spec fn outcome_text(o: CommandOutcome) -> Option<Seq<char>> {
    match o {
        CommandOutcome::Respond(t) => Some(t@),
        CommandOutcome::ScanAttachment => None,
    }
}

/// The commands that read or change the state of the guild they are issued in.
pub open spec fn is_guild_command(name: Seq<char>) -> bool {
    ||| name == "silence"@
    ||| name == "silencemessage"@
    ||| name == "alinkmasktoggle"@
    ||| name == "alinkmaskwhitelist"@
    ||| name == "alinkmaskwhitelistclear"@
    ||| name == "alinkmaskmaxoffenses"@
    ||| name == "alinkmaskresetall"@
    ||| name == "alinkmaskresetoffenses"@
    ||| name == "alinkmaskaction"@
    ||| name == "scannertoggle"@
}

/// The action named by the value of the `alinkmaskaction` command.
pub open spec fn parse_action(t: Seq<char>) -> Option<ActionKind> {
    if t == "none"@ {
        Some(ActionKind::Nothing)
    } else if t == "silence"@ {
        Some(ActionKind::Silence)
    } else if t == "kick"@ {
        Some(ActionKind::Kick)
    } else if t == "ban"@ {
        Some(ActionKind::Ban)
    } else if t == "hban"@ {
        Some(ActionKind::HardBan)
    } else {
        None
    }
}

/// The first option names a user.
pub open spec fn first_is_user(opts: Seq<CommandValue>) -> bool {
    opts.len() > 0 && opts[0] is User
}

/// The options that a guild command needs: a user for `silence`,
/// `alinkmaskwhitelist` and `alinkmaskresetoffenses`; one of the action names
/// for `alinkmaskaction`. The options of the other commands are optional.
pub open spec fn options_fit(name: Seq<char>, opts: Seq<CommandValue>) -> bool {
    if name == "silence"@ || name == "alinkmaskwhitelist"@ || name == "alinkmaskresetoffenses"@ {
        first_is_user(opts)
    } else if name == "alinkmaskaction"@ {
        opts.len() > 0 && (opts[0] matches CommandValue::Text(t) && parse_action(t@) is Some)
    } else {
        true
    }
}

pub open spec fn with_silence(g: GuildView, s: SilenceView) -> GuildView {
    GuildView { settings: GuildSettingsView { silence_settings: s, ..g.settings }, ..g }
}

pub open spec fn with_linkmask(g: GuildView, lm: LinkmaskSettingsView) -> GuildView {
    GuildView { settings: GuildSettingsView { lmsettings: lm, ..g.settings }, ..g }
}

pub open spec fn with_scanner(g: GuildView, active: bool) -> GuildView {
    GuildView { settings: GuildSettingsView { scanner_active: active, ..g.settings }, ..g }
}

/// A guild command applied to the guild `g`: the guild after it, and the answer.
pub open spec fn guild_command(g: GuildView, name: Seq<char>, opts: Seq<CommandValue>) -> (
    GuildView,
    Seq<char>,
) {
    let s = g.settings.silence_settings;
    let lm = g.settings.lmsettings;
    if name == "silence"@ {
        let u = opts[0]->User_0;
        if s.users.contains(u) {
            (with_silence(g, SilenceView { users: s.users.remove(u), ..s }), "User unsilenced!"@)
        } else {
            (with_silence(g, SilenceView { users: s.users.insert(u), ..s }), "User silenced!"@)
        }
    } else if name == "silencemessage"@ {
        let msg = if opts.len() > 0 && opts[0] is Text {
            Some(opts[0]->Text_0@)
        } else {
            None
        };
        (
            with_silence(g, SilenceView { msg: msg, ..s }),
            if msg is Some {
                "Silence message added!"@
            } else {
                "Silence message removed!"@
            },
        )
    } else if name == "alinkmasktoggle"@ {
        (
            with_linkmask(g, LinkmaskSettingsView { active: !lm.active, ..lm }),
            if !lm.active {
                "Antilinkmask is turned on!"@
            } else {
                "Antilinkmask is turned off!"@
            },
        )
    } else if name == "alinkmaskwhitelist"@ {
        let u = opts[0]->User_0;
        if lm.whitelist.contains(u) {
            (
                with_linkmask(g, LinkmaskSettingsView { whitelist: lm.whitelist.remove(u), ..lm }),
                "User removed from whitelist!"@,
            )
        } else {
            (
                with_linkmask(g, LinkmaskSettingsView { whitelist: lm.whitelist.insert(u), ..lm }),
                "User added to whitelist!"@,
            )
        }
    } else if name == "alinkmaskwhitelistclear"@ {
        (
            with_linkmask(g, LinkmaskSettingsView { whitelist: Set::empty(), ..lm }),
            "Whitelist cleared!"@,
        )
    } else if name == "alinkmaskmaxoffenses"@ {
        let limit = if opts.len() > 0 && opts[0] is Integer {
            opts[0]->Integer_0
        } else {
            3
        };
        (with_linkmask(g, LinkmaskSettingsView { maxoffenses: limit, ..lm }), "Set max offenses!"@)
    } else if name == "alinkmaskresetall"@ {
        (GuildView { offenses: Map::empty(), ..g }, "Cleared all offense counts!"@)
    } else if name == "alinkmaskresetoffenses"@ {
        (
            GuildView { offenses: g.offenses.insert(opts[0]->User_0, 0), ..g },
            "Cleared user's offense count!"@,
        )
    } else if name == "alinkmaskaction"@ {
        let action = parse_action(opts[0]->Text_0@)->Some_0;
        (with_linkmask(g, LinkmaskSettingsView { action: action, ..lm }), "Set antilinkmask action!"@)
    } else {
        (
            with_scanner(g, !g.settings.scanner_active),
            if !g.settings.scanner_active {
                "Scanner turned on!"@
            } else {
                "Scanner turned off!"@
            },
        )
    }
}

/// A command named `name` with options `opts`, issued in the guild `guild_id`
/// by a caller who is an administrator or not: the guilds after it, and the
/// answer (`None` for a scan of an attachment). `scanfile` is open to all; the
/// other commands need an administrator.
pub open spec fn command_outcome(
    guilds: Map<u64, GuildView>,
    guild_id: u64,
    name: Seq<char>,
    is_admin: bool,
    opts: Seq<CommandValue>,
) -> (Map<u64, GuildView>, Option<Seq<char>>) {
    if name == "scanfile"@ {
        (guilds, None)
    } else if !is_admin {
        (guilds, Some("You do not have the permissions for this command."@))
    } else if is_guild_command(name) {
        let (g, reply) = guild_command(guilds[guild_id], name, opts);
        (guilds.insert(guild_id, g), Some(reply))
    } else {
        (guilds, Some("Unimplemented Command"@))
    }
}

/// The commands that would fail for want of the guild's record or of the
/// options they need are left out; all others are accepted.
pub open spec fn command_accepted(
    guilds: Map<u64, GuildView>,
    guild_id: u64,
    name: Seq<char>,
    is_admin: bool,
    opts: Seq<CommandValue>,
) -> bool {
    name != "scanfile"@ && is_admin && is_guild_command(name) ==> guilds.contains_key(guild_id)
        && options_fit(name, opts)
}

/// Whether `name` is one of the guild commands.
pub fn guild_command_name(name: &str) -> (r: bool)
    ensures
        r == is_guild_command(name@),
{
    text_eq(name, "silence") || text_eq(name, "silencemessage") || text_eq(name, "alinkmasktoggle")
        || text_eq(name, "alinkmaskwhitelist") || text_eq(name, "alinkmaskwhitelistclear")
        || text_eq(name, "alinkmaskmaxoffenses") || text_eq(name, "alinkmaskresetall")
        || text_eq(name, "alinkmaskresetoffenses") || text_eq(name, "alinkmaskaction")
        || text_eq(name, "scannertoggle")
}

/// The action named by `t`, if any.
pub fn action_named(t: &str) -> (r: Option<ActionKind>)
    ensures
        r == parse_action(t@),
{
    if text_eq(t, "none") {
        Some(ActionKind::Nothing)
    } else if text_eq(t, "silence") {
        Some(ActionKind::Silence)
    } else if text_eq(t, "kick") {
        Some(ActionKind::Kick)
    } else if text_eq(t, "ban") {
        Some(ActionKind::Ban)
    } else if text_eq(t, "hban") {
        Some(ActionKind::HardBan)
    } else {
        None
    }
}

/// Whether the options fit the command, as [`options_fit`] says.
pub fn options_fit_command(name: &str, opts: &Vec<CommandValue>) -> (r: bool)
    ensures
        r == options_fit(name@, opts@),
{
    if text_eq(name, "silence") || text_eq(name, "alinkmaskwhitelist") || text_eq(
        name,
        "alinkmaskresetoffenses",
    ) {
        opts.len() > 0 && match &opts[0] {
            CommandValue::User(_) => true,
            _ => false,
        }
    } else if text_eq(name, "alinkmaskaction") {
        opts.len() > 0 && match &opts[0] {
            CommandValue::Text(t) => action_named(t.as_str()).is_some(),
            _ => false,
        }
    } else {
        true
    }
}

/// The user named by the first option.
fn first_user(opts: &Vec<CommandValue>) -> (u: u64)
    requires
        first_is_user(opts@),
    ensures
        u == opts@[0]->User_0,
{
    match &opts[0] {
        CommandValue::User(u) => *u,
        _ => 0,
    }
}

impl GuildInstance {
    /// Applies a guild command to this guild and returns the answer.
    pub fn apply_command(&mut self, name: &str, opts: &Vec<CommandValue>) -> (reply: String)
        requires
            is_guild_command(name@),
            options_fit(name@, opts@),
        ensures
            (final(self)@, reply@) == guild_command(old(self)@, name@, opts@),
    {
        broadcast use vstd::std_specs::hash::group_hash_axioms;

        if text_eq(name, "silence") {
            let u = first_user(opts);
            if self.gs.silence_settings.users.contains(&u) {
                self.gs.silence_settings.users.remove(&u);
                owned("User unsilenced!")
            } else {
                self.gs.silence_settings.users.insert(u);
                owned("User silenced!")
            }
        } else if text_eq(name, "silencemessage") {
            let msg = if opts.len() > 0 {
                match &opts[0] {
                    CommandValue::Text(t) => Some(t.clone()),
                    _ => None,
                }
            } else {
                None
            };
            let added = msg.is_some();
            self.gs.silence_settings.msg = msg;
            if added {
                owned("Silence message added!")
            } else {
                owned("Silence message removed!")
            }
        } else if text_eq(name, "alinkmasktoggle") {
            self.gs.lmsettings.active = !self.gs.lmsettings.active;
            if self.gs.lmsettings.active {
                owned("Antilinkmask is turned on!")
            } else {
                owned("Antilinkmask is turned off!")
            }
        } else if text_eq(name, "alinkmaskwhitelist") {
            let u = first_user(opts);
            if self.gs.lmsettings.whitelist.contains(&u) {
                self.gs.lmsettings.whitelist.remove(&u);
                owned("User removed from whitelist!")
            } else {
                self.gs.lmsettings.whitelist.insert(u);
                owned("User added to whitelist!")
            }
        } else if text_eq(name, "alinkmaskwhitelistclear") {
            self.gs.lmsettings.whitelist.clear();
            owned("Whitelist cleared!")
        } else if text_eq(name, "alinkmaskmaxoffenses") {
            self.gs.lmsettings.maxoffenses = if opts.len() > 0 {
                match &opts[0] {
                    CommandValue::Integer(n) => *n,
                    _ => 3,
                }
            } else {
                3
            };
            owned("Set max offenses!")
        } else if text_eq(name, "alinkmaskresetall") {
            self.gd.lmdata.offenses.clear();
            owned("Cleared all offense counts!")
        } else if text_eq(name, "alinkmaskresetoffenses") {
            let u = first_user(opts);
            self.gd.lmdata.offenses.insert(u, 0);
            owned("Cleared user's offense count!")
        } else if text_eq(name, "alinkmaskaction") {
            let action = match &opts[0] {
                CommandValue::Text(t) => action_named(t.as_str()),
                _ => None,
            };
            match action {
                Some(a) => {
                    self.gs.lmsettings.action = a;
                },
                None => {},
            }
            owned("Set antilinkmask action!")
        } else {
            self.gs.scanner_settings.active = !self.gs.scanner_settings.active;
            if self.gs.scanner_settings.active {
                owned("Scanner turned on!")
            } else {
                owned("Scanner turned off!")
            }
        }
    }
}

/// Whether the command is accepted, as [`command_accepted`] says.
pub fn accepts_command(
    gi: &GuildInstances,
    guild_id: u64,
    name: &str,
    is_admin: bool,
    options: &Vec<CommandValue>,
) -> (r: bool)
    ensures
        r == command_accepted(gi@, guild_id, name@, is_admin, options@),
{
    if !text_eq(name, "scanfile") && is_admin && guild_command_name(name) {
        gi.instances.contains_key(&guild_id) && options_fit_command(name, options)
    } else {
        true
    }
}

/// Handles the command `name` with options `options`, issued in the guild
/// `guild_id` by a caller who is an administrator or not.
pub fn handle_commands(
    gi: &mut GuildInstances,
    guild_id: u64,
    name: &str,
    is_admin: bool,
    options: &Vec<CommandValue>,
) -> (r: CommandOutcome)
    requires
        command_accepted(old(gi)@, guild_id, name@, is_admin, options@),
    ensures
        (final(gi)@, outcome_text(r)) == command_outcome(
            old(gi)@,
            guild_id,
            name@,
            is_admin,
            options@,
        ),
{
    if text_eq(name, "scanfile") {
        return CommandOutcome::ScanAttachment;
    }
    if !is_admin {
        return CommandOutcome::Respond(owned("You do not have the permissions for this command."));
    }
    if guild_command_name(name) {
        let mut inst = gi.take(guild_id);
        let reply = inst.apply_command(name, options);
        gi.put(guild_id, inst);
        proof {
            assert(gi@ =~= old(gi)@.insert(guild_id, guild_command(old(gi)@[guild_id], name@, options@).0));
        }
        CommandOutcome::Respond(reply)
    } else {
        CommandOutcome::Respond(owned("Unimplemented Command"))
    }
}



/// The kind of value a command option takes.
#[derive(Clone, Copy, PartialEq, Eq, Structural, Debug)]
pub enum OptionKind {
    User,
    Text,
    Integer,
    Attachment,
}

/// One option of a command.
pub struct OptionSpec {
    pub kind: OptionKind,
    pub name: String,
    pub description: String,
    pub required: bool,
    /// Offered values, as (shown name, value) pairs; empty when any value goes.
    pub choices: Vec<(String, String)>,
}

/// The abstract content of [`OptionSpec`].
#[verifier::ext_equal]
pub ghost struct OptionView {
    pub kind: OptionKind,
    pub name: Seq<char>,
    pub description: Seq<char>,
    pub required: bool,
    pub choices: Seq<(Seq<char>, Seq<char>)>,
}

impl View for OptionSpec {
    type V = OptionView;

    open spec fn view(&self) -> OptionView {
        OptionView {
            kind: self.kind,
            name: self.name@,
            description: self.description@,
            required: self.required,
            choices: self.choices@.map_values(|c: (String, String)| (c.0@, c.1@)),
        }
    }
}

/// A command the bot registers.
pub struct CommandSpec {
    pub name: String,
    pub description: String,
    pub options: Vec<OptionSpec>,
}

/// The abstract content of [`CommandSpec`].
#[verifier::ext_equal]
pub ghost struct CommandView {
    pub name: Seq<char>,
    pub description: Seq<char>,
    pub options: Seq<OptionView>,
}

impl View for CommandSpec {
    type V = CommandView;

    open spec fn view(&self) -> CommandView {
        CommandView {
            name: self.name@,
            description: self.description@,
            options: self.options@.map_values(|o: OptionSpec| o@),
        }
    }
}

/// The abstract content of a list of commands.
pub open spec fn commands_view(cmds: Seq<CommandSpec>) -> Seq<CommandView> {
    cmds.map_values(|c: CommandSpec| c@)
}

/// An option without offered values.
pub open spec fn plain_option(
    kind: OptionKind,
    name: Seq<char>,
    description: Seq<char>,
    required: bool,
) -> OptionView {
    OptionView { kind, name, description, required, choices: seq![] }
}

/// The commands the bot registers, in the order it registers them: the
/// anti-link-mask commands, the scanner commands, the silence commands.
pub open spec fn command_table() -> Seq<CommandView> {
    seq![
        alinkmasktoggle_command(),
        alinkmaskwhitelist_command(),
        alinkmaskwhitelistclear_command(),
        alinkmaskmaxoffenses_command(),
        alinkmaskresetoffenses_command(),
        alinkmaskresetall_command(),
        alinkmaskaction_command(),
        scannertoggle_command(),
        scanfile_command(),
        silence_command(),
        silencemessage_command(),
    ]
}

pub open spec fn alinkmasktoggle_command() -> CommandView {
    CommandView {
        name: "alinkmasktoggle"@,
        description: "Toggles | Toggles the activity of the antilinkmask feature."@,
        options: seq![],
    }
}

pub open spec fn alinkmaskwhitelist_command() -> CommandView {
    CommandView {
        name: "alinkmaskwhitelist"@,
        description: "User | Toggles a user being whitelisted from the antilinkmask feature."@,
        options: seq![
            plain_option(
                OptionKind::User,
                "user"@,
                "User for the whitelist"@,
                false,
            ),
        ],
    }
}

pub open spec fn alinkmaskwhitelistclear_command() -> CommandView {
    CommandView {
        name: "alinkmaskwhitelistclear"@,
        description: "None | Clears the antilinkmask whitelist."@,
        options: seq![],
    }
}

pub open spec fn alinkmaskmaxoffenses_command() -> CommandView {
    CommandView {
        name: "alinkmaskmaxoffenses"@,
        description: "Int | Sets the amount of offenses before taking the set action"@,
        options: seq![
            plain_option(
                OptionKind::Integer,
                "count"@,
                "The count of offenses that will trigger the set action. Default: 4"@,
                false,
            ),
        ],
    }
}

pub open spec fn alinkmaskresetoffenses_command() -> CommandView {
    CommandView {
        name: "alinkmaskresetoffenses"@,
        description: "User | Resets the offense count for a given user"@,
        options: seq![
            plain_option(
                OptionKind::User,
                "user"@,
                "User to reset the offense count of"@,
                true,
            ),
        ],
    }
}

pub open spec fn alinkmaskresetall_command() -> CommandView {
    CommandView {
        name: "alinkmaskresetall"@,
        description: "None | Resets all users offense counts"@,
        options: seq![],
    }
}

pub open spec fn alinkmaskaction_command() -> CommandView {
    CommandView {
        name: "alinkmaskaction"@,
        description: "Action | The action taken against the user after reaching the max offenses."@,
        options: seq![
            OptionView {
                kind: OptionKind::Text,
                name: "action"@,
                description: "The action taken after offenses reached."@,
                required: false,
                choices: seq![
                    ("None"@, "none"@),
                    ("Silence"@, "silence"@),
                    ("Kick"@, "kick"@),
                    ("Ban"@, "ban"@),
                    ("HardBan"@, "hban"@),
                ],
            },
        ],
    }
}

pub open spec fn scannertoggle_command() -> CommandView {
    CommandView {
        name: "scannertoggle"@,
        description: "Toggles | Toggles the activity of the scanner functionality"@,
        options: seq![],
    }
}

pub open spec fn scanfile_command() -> CommandView {
    CommandView {
        name: "scanfile"@,
        description: "File | Scans files giving a report for the blocks scanned."@,
        options: seq![
            plain_option(
                OptionKind::Attachment,
                "file"@,
                "File to be scanned"@,
                true,
            ),
        ],
    }
}

pub open spec fn silence_command() -> CommandView {
    CommandView {
        name: "silence"@,
        description: "Toggles | Silences a use by means of deleting their message."@,
        options: seq![
            plain_option(
                OptionKind::User,
                "user"@,
                "The User to be silenced"@,
                true,
            ),
        ],
    }
}

pub open spec fn silencemessage_command() -> CommandView {
    CommandView {
        name: "silencemessage"@,
        description: "Optional String | Sends an Custom message replying to the user."@,
        options: seq![
            plain_option(
                OptionKind::Text,
                "string"@,
                "The message to be sent"@,
                false,
            ),
        ],
    }
}

/// An option without offered values, as [`plain_option`] says.
fn make_option(kind: OptionKind, name: &str, description: &str, required: bool) -> (r: OptionSpec)
    ensures
        r@ == plain_option(kind, name@, description@, required),
{
    let r = OptionSpec {
        kind,
        name: owned(name),
        description: owned(description),
        required,
        choices: Vec::new(),
    };
    assert(r@ =~~= plain_option(kind, name@, description@, required));
    r
}

/// A command with the given options.
fn make_command(name: &str, description: &str, options: Vec<OptionSpec>) -> (r: CommandSpec)
    ensures
        r@ == (CommandView {
            name: name@,
            description: description@,
            options: options@.map_values(|o: OptionSpec| o@),
        }),
{
    CommandSpec { name: owned(name), description: owned(description), options }
}

fn command_alinkmasktoggle() -> (r: CommandSpec)
    ensures
        r@ == alinkmasktoggle_command(),
{
    let mut options: Vec<OptionSpec> = Vec::new();
    let r = make_command(
        "alinkmasktoggle",
        "Toggles | Toggles the activity of the antilinkmask feature.",
        options,
    );
    assert(r@ =~~= alinkmasktoggle_command());
    r
}

fn command_alinkmaskwhitelist() -> (r: CommandSpec)
    ensures
        r@ == alinkmaskwhitelist_command(),
{
    let mut options: Vec<OptionSpec> = Vec::new();
    options.push(make_option(
        OptionKind::User,
        "user",
        "User for the whitelist",
        false,
    ));
    let r = make_command(
        "alinkmaskwhitelist",
        "User | Toggles a user being whitelisted from the antilinkmask feature.",
        options,
    );
    assert(r@ =~~= alinkmaskwhitelist_command());
    r
}

fn command_alinkmaskwhitelistclear() -> (r: CommandSpec)
    ensures
        r@ == alinkmaskwhitelistclear_command(),
{
    let mut options: Vec<OptionSpec> = Vec::new();
    let r = make_command(
        "alinkmaskwhitelistclear",
        "None | Clears the antilinkmask whitelist.",
        options,
    );
    assert(r@ =~~= alinkmaskwhitelistclear_command());
    r
}

fn command_alinkmaskmaxoffenses() -> (r: CommandSpec)
    ensures
        r@ == alinkmaskmaxoffenses_command(),
{
    let mut options: Vec<OptionSpec> = Vec::new();
    options.push(make_option(
        OptionKind::Integer,
        "count",
        "The count of offenses that will trigger the set action. Default: 4",
        false,
    ));
    let r = make_command(
        "alinkmaskmaxoffenses",
        "Int | Sets the amount of offenses before taking the set action",
        options,
    );
    assert(r@ =~~= alinkmaskmaxoffenses_command());
    r
}

fn command_alinkmaskresetoffenses() -> (r: CommandSpec)
    ensures
        r@ == alinkmaskresetoffenses_command(),
{
    let mut options: Vec<OptionSpec> = Vec::new();
    options.push(make_option(
        OptionKind::User,
        "user",
        "User to reset the offense count of",
        true,
    ));
    let r = make_command(
        "alinkmaskresetoffenses",
        "User | Resets the offense count for a given user",
        options,
    );
    assert(r@ =~~= alinkmaskresetoffenses_command());
    r
}

fn command_alinkmaskresetall() -> (r: CommandSpec)
    ensures
        r@ == alinkmaskresetall_command(),
{
    let mut options: Vec<OptionSpec> = Vec::new();
    let r = make_command(
        "alinkmaskresetall",
        "None | Resets all users offense counts",
        options,
    );
    assert(r@ =~~= alinkmaskresetall_command());
    r
}

fn command_alinkmaskaction() -> (r: CommandSpec)
    ensures
        r@ == alinkmaskaction_command(),
{
    let mut options: Vec<OptionSpec> = Vec::new();
    let mut choices: Vec<(String, String)> = Vec::new();
    choices.push((owned("None"), owned("none")));
    choices.push((owned("Silence"), owned("silence")));
    choices.push((owned("Kick"), owned("kick")));
    choices.push((owned("Ban"), owned("ban")));
    choices.push((owned("HardBan"), owned("hban")));
    options.push(
        OptionSpec {
            kind: OptionKind::Text,
            name: owned("action"),
            description: owned("The action taken after offenses reached."),
            required: false,
            choices,
        },
    );
    let r = make_command(
        "alinkmaskaction",
        "Action | The action taken against the user after reaching the max offenses.",
        options,
    );
    assert(r@ =~~= alinkmaskaction_command());
    r
}

fn command_scannertoggle() -> (r: CommandSpec)
    ensures
        r@ == scannertoggle_command(),
{
    let mut options: Vec<OptionSpec> = Vec::new();
    let r = make_command(
        "scannertoggle",
        "Toggles | Toggles the activity of the scanner functionality",
        options,
    );
    assert(r@ =~~= scannertoggle_command());
    r
}

fn command_scanfile() -> (r: CommandSpec)
    ensures
        r@ == scanfile_command(),
{
    let mut options: Vec<OptionSpec> = Vec::new();
    options.push(make_option(
        OptionKind::Attachment,
        "file",
        "File to be scanned",
        true,
    ));
    let r = make_command(
        "scanfile",
        "File | Scans files giving a report for the blocks scanned.",
        options,
    );
    assert(r@ =~~= scanfile_command());
    r
}

fn command_silence() -> (r: CommandSpec)
    ensures
        r@ == silence_command(),
{
    let mut options: Vec<OptionSpec> = Vec::new();
    options.push(make_option(
        OptionKind::User,
        "user",
        "The User to be silenced",
        true,
    ));
    let r = make_command(
        "silence",
        "Toggles | Silences a use by means of deleting their message.",
        options,
    );
    assert(r@ =~~= silence_command());
    r
}

fn command_silencemessage() -> (r: CommandSpec)
    ensures
        r@ == silencemessage_command(),
{
    let mut options: Vec<OptionSpec> = Vec::new();
    options.push(make_option(
        OptionKind::Text,
        "string",
        "The message to be sent",
        false,
    ));
    let r = make_command(
        "silencemessage",
        "Optional String | Sends an Custom message replying to the user.",
        options,
    );
    assert(r@ =~~= silencemessage_command());
    r
}

/// The commands the bot registers, as [`command_table`] lists them.
pub fn generate_commands() -> (r: Vec<CommandSpec>)
    ensures
        commands_view(r@) == command_table(),
{
    let mut cmds: Vec<CommandSpec> = Vec::new();
    cmds.push(command_alinkmasktoggle());
    cmds.push(command_alinkmaskwhitelist());
    cmds.push(command_alinkmaskwhitelistclear());
    cmds.push(command_alinkmaskmaxoffenses());
    cmds.push(command_alinkmaskresetoffenses());
    cmds.push(command_alinkmaskresetall());
    cmds.push(command_alinkmaskaction());
    cmds.push(command_scannertoggle());
    cmds.push(command_scanfile());
    cmds.push(command_silence());
    cmds.push(command_silencemessage());
    assert(commands_view(cmds@) =~= command_table());
    cmds
}

} // verus!
