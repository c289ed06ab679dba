use antiphish_bot::utils::ActionKind;
use antiphish_bot::interactions::commands::{handle_commands, CommandOutcome, CommandValue};
use antiphish_bot::handler_struct::{GuildInstance, GuildInstances};
use antiphish_bot::messages::linkmask::{alinkmask_handle, LinkmaskAction};
use antiphish_bot::messages::handle_message::handle_message;
use antiphish_bot::messages::silence::{silence_user, SilenceVerdict};

const GUILD: u64 = 77;
const USER: u64 = 1001;

fn guilds() -> GuildInstances {
    let mut g = GuildInstances::new();
    g.guild_create(GUILD);
    g
}

fn reply(out: CommandOutcome) -> String {
    match out {
        CommandOutcome::Respond(t) => t,
        CommandOutcome::ScanAttachment => panic!("expected a reply"),
    }
}

fn run(g: &mut GuildInstances, name: &str, opts: Vec<CommandValue>) -> String {
    reply(handle_commands(g, GUILD, name, true, &opts))
}

#[test]
fn new_guild_has_defaults() {
    let gi = GuildInstance::new();
    assert!(!gi.gs.has_premium);
    assert!(gi.gs.lmsettings.active);
    assert!(gi.gs.lmsettings.whitelist.is_empty());
    assert_eq!(gi.gs.lmsettings.maxoffenses, 3);
    assert_eq!(gi.gs.lmsettings.action, ActionKind::Kick);
    assert!(gi.gs.silence_settings.users.is_empty());
    assert!(gi.gs.silence_settings.msg.is_none());
    assert!(gi.gs.scanner_settings.active);
    assert!(gi.gd.lmdata.offenses.is_empty());
}

#[test]
fn guild_create_and_delete() {
    let mut g = guilds();
    assert!(g.instances.contains_key(&GUILD));
    run(&mut g, "alinkmasktoggle", vec![]);
    assert!(!g.instances[&GUILD].gs.lmsettings.active);
    g.guild_create(GUILD);
    assert!(!g.instances[&GUILD].gs.lmsettings.active);
    g.guild_create(8);
    assert!(g.instances[&8].gs.lmsettings.active);
    assert_eq!(g.instances.len(), 2);
    g.guild_delete(GUILD);
    assert!(!g.instances.contains_key(&GUILD));
    assert_eq!(g.instances.len(), 1);
}

#[test]
fn silence_command_toggles() {
    let mut g = guilds();
    assert_eq!(run(&mut g, "silence", vec![CommandValue::User(USER)]), "User silenced!");
    assert!(g.instances[&GUILD].gs.silence_settings.users.contains(&USER));
    assert_eq!(run(&mut g, "silence", vec![CommandValue::User(USER)]), "User unsilenced!");
    assert!(g.instances[&GUILD].gs.silence_settings.users.is_empty());
}

#[test]
fn silence_message_set_and_removed() {
    let mut g = guilds();
    assert_eq!(
        run(&mut g, "silencemessage", vec![CommandValue::Text("Be quiet".to_string())]),
        "Silence message added!"
    );
    assert_eq!(g.instances[&GUILD].gs.silence_settings.msg.as_deref(), Some("Be quiet"));
    assert_eq!(run(&mut g, "silencemessage", vec![CommandValue::Other]), "Silence message removed!");
    assert!(g.instances[&GUILD].gs.silence_settings.msg.is_none());
    run(&mut g, "silencemessage", vec![CommandValue::Text("Again".to_string())]);
    assert_eq!(run(&mut g, "silencemessage", vec![]), "Silence message removed!");
    assert!(g.instances[&GUILD].gs.silence_settings.msg.is_none());
}

#[test]
fn linkmask_and_scanner_toggles() {
    let mut g = guilds();
    assert_eq!(run(&mut g, "alinkmasktoggle", vec![]), "Antilinkmask is turned off!");
    assert_eq!(run(&mut g, "alinkmasktoggle", vec![]), "Antilinkmask is turned on!");
    assert_eq!(run(&mut g, "scannertoggle", vec![]), "Scanner turned off!");
    assert!(!g.instances[&GUILD].gs.scanner_settings.active);
    assert_eq!(run(&mut g, "scannertoggle", vec![]), "Scanner turned on!");
}

#[test]
fn whitelist_commands() {
    let mut g = guilds();
    assert_eq!(run(&mut g, "alinkmaskwhitelist", vec![CommandValue::User(5)]), "User added to whitelist!");
    assert_eq!(run(&mut g, "alinkmaskwhitelist", vec![CommandValue::User(6)]), "User added to whitelist!");
    assert_eq!(run(&mut g, "alinkmaskwhitelist", vec![CommandValue::User(5)]), "User removed from whitelist!");
    assert_eq!(g.instances[&GUILD].gs.lmsettings.whitelist.len(), 1);
    assert_eq!(run(&mut g, "alinkmaskwhitelistclear", vec![]), "Whitelist cleared!");
    assert!(g.instances[&GUILD].gs.lmsettings.whitelist.is_empty());
}

#[test]
fn max_offenses_and_action_commands() {
    let mut g = guilds();
    assert_eq!(run(&mut g, "alinkmaskmaxoffenses", vec![CommandValue::Integer(9)]), "Set max offenses!");
    assert_eq!(g.instances[&GUILD].gs.lmsettings.maxoffenses, 9);
    run(&mut g, "alinkmaskmaxoffenses", vec![CommandValue::Other]);
    assert_eq!(g.instances[&GUILD].gs.lmsettings.maxoffenses, 3);
    run(&mut g, "alinkmaskmaxoffenses", vec![CommandValue::Integer(6)]);
    assert_eq!(run(&mut g, "alinkmaskmaxoffenses", vec![]), "Set max offenses!");
    assert_eq!(g.instances[&GUILD].gs.lmsettings.maxoffenses, 3);
    let cases = [
        ("none", ActionKind::Nothing),
        ("silence", ActionKind::Silence),
        ("kick", ActionKind::Kick),
        ("ban", ActionKind::Ban),
        ("hban", ActionKind::HardBan),
    ];
    for (text, kind) in cases.iter() {
        assert_eq!(
            run(&mut g, "alinkmaskaction", vec![CommandValue::Text(text.to_string())]),
            "Set antilinkmask action!"
        );
        assert_eq!(g.instances[&GUILD].gs.lmsettings.action, *kind);
    }
}

#[test]
fn offense_reset_commands() {
    let mut g = guilds();
    alinkmask_handle(&mut g, GUILD, USER, &[]);
    alinkmask_handle(&mut g, GUILD, 2, &[]);
    assert_eq!(run(&mut g, "alinkmaskresetoffenses", vec![CommandValue::User(USER)]), "Cleared user's offense count!");
    assert_eq!(g.instances[&GUILD].gd.lmdata.offenses[&USER], 0);
    assert_eq!(g.instances[&GUILD].gd.lmdata.offenses[&2], 1);
    assert_eq!(run(&mut g, "alinkmaskresetall", vec![]), "Cleared all offense counts!");
    assert!(g.instances[&GUILD].gd.lmdata.offenses.is_empty());
}

#[test]
fn permissions_and_unknown_commands() {
    let mut g = guilds();
    let out = handle_commands(&mut g, GUILD, "alinkmasktoggle", false, &vec![]);
    assert_eq!(reply(out), "You do not have the permissions for this command.");
    assert!(g.instances[&GUILD].gs.lmsettings.active);
    let out = handle_commands(&mut g, GUILD, "scanfile", false, &vec![CommandValue::Attachment(3)]);
    assert!(matches!(out, CommandOutcome::ScanAttachment));
    let out = handle_commands(&mut g, GUILD, "dance", true, &vec![]);
    assert_eq!(reply(out), "Unimplemented Command");
    let out = handle_commands(&mut g, GUILD, "dance", false, &vec![]);
    assert_eq!(reply(out), "You do not have the permissions for this command.");
}

#[test]
fn offenses_lead_to_kick_after_limit() {
    let mut g = guilds();
    for _ in 0..3 {
        assert_eq!(alinkmask_handle(&mut g, GUILD, USER, &[]), LinkmaskAction::Nothing);
    }
    assert_eq!(g.instances[&GUILD].gd.lmdata.offenses[&USER], 3);
    assert_eq!(alinkmask_handle(&mut g, GUILD, USER, &[]), LinkmaskAction::Kick);
    assert_eq!(alinkmask_handle(&mut g, GUILD, USER, &[]), LinkmaskAction::Kick);
    assert_eq!(g.instances[&GUILD].gd.lmdata.offenses[&USER], 5);
}

#[test]
fn ban_actions_carry_deletion_days() {
    let mut g = guilds();
    run(&mut g, "alinkmaskmaxoffenses", vec![CommandValue::Integer(0)]);
    run(&mut g, "alinkmaskaction", vec![CommandValue::Text("ban".to_string())]);
    assert_eq!(alinkmask_handle(&mut g, GUILD, USER, &[]), LinkmaskAction::Ban { delete_message_days: 0 });
    run(&mut g, "alinkmaskaction", vec![CommandValue::Text("hban".to_string())]);
    assert_eq!(alinkmask_handle(&mut g, GUILD, USER, &[]), LinkmaskAction::Ban { delete_message_days: 7 });
    run(&mut g, "alinkmaskaction", vec![CommandValue::Text("none".to_string())]);
    assert_eq!(alinkmask_handle(&mut g, GUILD, USER, &[]), LinkmaskAction::Nothing);
}

#[test]
fn silence_action_silences_offender() {
    let mut g = guilds();
    run(&mut g, "alinkmaskmaxoffenses", vec![CommandValue::Integer(1)]);
    run(&mut g, "alinkmaskaction", vec![CommandValue::Text("silence".to_string())]);
    alinkmask_handle(&mut g, GUILD, USER, &[]);
    assert!(!g.instances[&GUILD].gs.silence_settings.users.contains(&USER));
    assert_eq!(alinkmask_handle(&mut g, GUILD, USER, &[]), LinkmaskAction::Nothing);
    assert!(g.instances[&GUILD].gs.silence_settings.users.contains(&USER));
}

#[test]
fn exempt_users_are_not_counted() {
    let mut g = guilds();
    assert_eq!(alinkmask_handle(&mut g, GUILD, USER, &[USER]), LinkmaskAction::Nothing);
    run(&mut g, "alinkmaskwhitelist", vec![CommandValue::User(USER)]);
    alinkmask_handle(&mut g, GUILD, USER, &[]);
    run(&mut g, "alinkmaskwhitelist", vec![CommandValue::User(USER)]);
    run(&mut g, "alinkmasktoggle", vec![]);
    alinkmask_handle(&mut g, GUILD, USER, &[]);
    assert!(g.instances[&GUILD].gd.lmdata.offenses.is_empty());
}

#[test]
fn silenced_messages_are_removed() {
    let mut g = guilds();
    run(&mut g, "silence", vec![CommandValue::User(USER)]);
    let gi = &g.instances[&GUILD];
    assert!(matches!(silence_user(gi, USER, &[]), SilenceVerdict::Remove { notice: None }));
    assert!(matches!(silence_user(gi, USER, &[USER]), SilenceVerdict::Keep));
    assert!(matches!(silence_user(gi, 5, &[]), SilenceVerdict::Keep));
    run(&mut g, "silencemessage", vec![CommandValue::Text("Hush".to_string())]);
    match silence_user(&g.instances[&GUILD], USER, &[]) {
        SilenceVerdict::Remove { notice } => assert_eq!(notice.as_deref(), Some("Hush")),
        SilenceVerdict::Keep => panic!("silenced user kept"),
    }
}

#[test]
fn message_handling_combines_silence_and_linkmask() {
    let mut g = guilds();
    let v = handle_message(&mut g, GUILD, USER, "hello there", &[]);
    assert!(matches!(v.silence, SilenceVerdict::Keep));
    assert!(v.scan_attachments);
    assert_eq!(v.linkmask, LinkmaskAction::Nothing);
    assert!(g.instances[&GUILD].gd.lmdata.offenses.is_empty());
    let v = handle_message(&mut g, GUILD, USER, "see [this](https://bad.example)", &[]);
    assert_eq!(v.linkmask, LinkmaskAction::Nothing);
    assert_eq!(g.instances[&GUILD].gd.lmdata.offenses[&USER], 1);
    run(&mut g, "silence", vec![CommandValue::User(USER)]);
    let v = handle_message(&mut g, GUILD, USER, "plain", &[]);
    assert!(matches!(v.silence, SilenceVerdict::Remove { .. }));
    run(&mut g, "scannertoggle", vec![]);
    let v = handle_message(&mut g, GUILD, USER, "plain", &[]);
    assert!(!v.scan_attachments);
}
