use antiphish_bot::interactions::commands::{generate_commands, OptionKind};
use antiphish_bot::messages::scan::{
    interpret_scan_reply, report_colour, tally_blocks, ReportColour, ScanResult, ScannerSettings,
};
use antiphish_bot::text::{id_listed, text_eq};

#[test]
fn scan_result_total() {
    let r = ScanResult::new(3, 1, 2);
    assert_eq!(r.clean, 3);
    assert_eq!(r.infected, 1);
    assert_eq!(r.failed, 2);
    assert_eq!(r.total(), 6);
    assert!(ScannerSettings::new().active);
}

#[test]
fn tally_counts_each_kind() {
    let blocks = vec![
        Some(Ok(None)),
        Some(Ok(Some("stream: Eicar FOUND".to_string()))),
        Some(Err("Failed to scan!".to_string())),
        None,
        Some(Ok(None)),
    ];
    let r = tally_blocks(&blocks);
    assert_eq!(r, ScanResult::new(2, 1, 2));
    assert_eq!(r.total(), 5);
    assert_eq!(tally_blocks(&vec![]), ScanResult::new(0, 0, 0));
}

#[test]
fn scan_replies() {
    assert_eq!(interpret_scan_reply(Some(b"stream: OK\0".to_vec())), Ok(None));
    assert_eq!(
        interpret_scan_reply(Some(b"stream: Win.Test.EICAR_HDB-1 FOUND\0".to_vec())),
        Ok(Some("stream: Win.Test.EICAR_HDB-1 FOUND\0".to_string()))
    );
    assert_eq!(
        interpret_scan_reply(Some(b"OK but FOUND".to_vec())),
        Ok(Some("OK but FOUND".to_string()))
    );
    assert_eq!(
        interpret_scan_reply(Some(b"INSTREAM size limit exceeded. ERROR".to_vec())),
        Ok(Some("INSTREAM size limit exceeded. ERROR".to_string()))
    );
    assert_eq!(interpret_scan_reply(None), Err("Failed to scan!".to_string()));
}

#[test]
fn command_table_lists_all_commands() {
    let cmds = generate_commands();
    let names: Vec<&str> = cmds.iter().map(|c| c.name.as_str()).collect();
    assert_eq!(
        names,
        vec![
            "alinkmasktoggle",
            "alinkmaskwhitelist",
            "alinkmaskwhitelistclear",
            "alinkmaskmaxoffenses",
            "alinkmaskresetoffenses",
            "alinkmaskresetall",
            "alinkmaskaction",
            "scannertoggle",
            "scanfile",
            "silence",
            "silencemessage",
        ]
    );
    let action = &cmds[6];
    assert_eq!(action.options.len(), 1);
    assert_eq!(action.options[0].kind, OptionKind::Text);
    let values: Vec<&str> = action.options[0].choices.iter().map(|c| c.1.as_str()).collect();
    assert_eq!(values, vec!["none", "silence", "kick", "ban", "hban"]);
    assert_eq!(cmds[8].options[0].kind, OptionKind::Attachment);
    assert!(cmds[8].options[0].required);
    assert!(!cmds[3].options[0].required);
    assert_eq!(cmds[9].description, "Toggles | Silences a use by means of deleting their message.");
}

#[test]
fn text_helpers() {
    assert!(text_eq("scanfile", "scanfile"));
    assert!(!text_eq("scanfile", "scanfil"));
    assert!(!text_eq("abc", "abd"));
    assert!(id_listed(&[4, 5, 6], 5));
    assert!(!id_listed(&[4, 5, 6], 7));
    assert!(!id_listed(&[], 7));
}

#[test]
fn report_colours() {
    assert!(ScanResult::new(1, 1, 0).has_infected_block());
    assert!(!ScanResult::new(1, 0, 5).has_infected_block());
    assert_eq!(report_colour(&ScanResult::new(0, 2, 9), true), ReportColour::Red);
    assert_eq!(report_colour(&ScanResult::new(0, 0, 9), true), ReportColour::Yellow);
    assert_eq!(report_colour(&ScanResult::new(4, 0, 0), false), ReportColour::Green);
}
