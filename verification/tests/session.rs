use rswc::catalog::{CatalogPage, WorkshopItem};
use rswc::manager::{ConfigSource, DownloadOutcome};
use rswc::session::{decode, Action, CommandWord, Event, Pending, Prompt, Session};

fn strings(items: &[&str]) -> Vec<String> {
    items.iter().map(|s| s.to_string()).collect()
}

fn pair(name: &str, id: &str) -> (String, String) {
    (name.to_string(), id.to_string())
}

fn item(name: &str, id: &str) -> WorkshopItem {
    WorkshopItem { name: name.to_string(), id: id.to_string() }
}

fn started() -> Session {
    let mut session = Session::new();
    session.manager.config.load_config(ConfigSource::Missing).unwrap();
    session
}

fn line(text: &str) -> Event {
    Event::Line(text.to_string())
}

fn awaits_command(session: &Session) -> bool {
    matches!(session.pending, Pending::Input)
}

#[test]
fn command_words_are_decoded_once() {
    assert_eq!(decode("help"), Some(CommandWord::Help));
    assert_eq!(decode("search"), Some(CommandWord::Search));
    assert_eq!(decode("alias"), Some(CommandWord::Alias));
    assert_eq!(decode("export"), Some(CommandWord::Export));
    assert_eq!(decode("download"), Some(CommandWord::Download));
    assert_eq!(decode("exit"), Some(CommandWord::Exit));
    assert_eq!(decode("exit\n"), Some(CommandWord::Exit));
    assert_eq!(decode("Exit"), None);
    assert_eq!(decode("aliases"), None);
    assert_eq!(decode("convert"), None);
    assert_eq!(decode(""), None);
}

#[test]
fn prompts_have_their_texts() {
    assert_eq!(Prompt::Command.render(), "RSWC (v1.0)> ");
    assert_eq!(Prompt::Selection.render(), "Select by index (0 1 2) > ");
}

#[test]
fn export_of_an_empty_collection_reports_and_writes_nothing() {
    let mut session = started();
    let out = session.step(line("export"));
    assert_eq!(out.lines, strings(&["[INFO] Nothing to export"]));
    assert_eq!(out.export, None);
    assert_eq!(out.action, Action::ReadLine(Prompt::Command));
    assert!(awaits_command(&session));
}

#[test]
fn alias_set_then_alias_show_displays_the_alias() {
    let mut session = started();
    let out = session.step(line("alias set my_game 123"));
    assert_eq!(out.lines, strings(&["[INFO] Added alias for 'my_game'"]));
    assert_eq!(out.action, Action::ReadLine(Prompt::Command));
    let out = session.step(line("alias show"));
    assert_eq!(
        out.lines,
        vec!["-".repeat(60), format!("{: <30} | {: <30}", "my_game", "123"), "-".repeat(60)]
    );
    let shown: Vec<&str> = out.lines[1].split_whitespace().collect();
    assert_eq!(shown, vec!["my_game", "|", "123"]);
}

#[test]
fn search_resolves_the_alias_before_the_catalog_is_asked() {
    let mut session = started();
    session.step(line("alias set my_game 123"));
    let out = session.step(line("search my_game"));
    assert_eq!(out.lines, Vec::<String>::new());
    let url = "https://steamcommunity.com/workshop/browse/?appid=123&searchtext=&days=-1&p=1";
    assert_eq!(out.action, Action::Fetch(url.to_string()));
    match &session.pending {
        Pending::Page { data, app_id } => {
            assert_eq!(app_id, "123");
            assert_eq!(data.args, strings(&["my_game"]));
        }
        _ => panic!("the session should wait for the page"),
    }
}

#[test]
fn search_of_an_unknown_name_asks_nothing() {
    let mut session = started();
    let out = session.step(line("search my_game"));
    assert_eq!(out.lines, strings(&["[ERR] App id not found for 'my_game'"]));
    assert_eq!(out.action, Action::ReadLine(Prompt::Command));
    assert!(awaits_command(&session));
    let out = session.step(line("search"));
    assert_eq!(out.lines, strings(&["[ERR] Insufficient arguments"]));
}

#[test]
fn a_whole_search_files_the_selected_items() {
    let mut session = started();
    let out = session.step(line("search 440 maps --days 7"));
    let url = "https://steamcommunity.com/workshop/browse/?appid=440&searchtext=maps&days=7&p=1";
    assert_eq!(out.action, Action::Fetch(url.to_string()));
    let page = CatalogPage::Found {
        title: "Team X".to_string(),
        items: vec![item("A", "1"), item("B", "2"), item("C", "3")],
    };
    let out = session.step(Event::Page(Some(page)));
    assert_eq!(
        out.lines,
        strings(&["[INFO] Added alias for 'team_x'", "0) A [1]", "1) B [2]", "2) C [3]"])
    );
    assert_eq!(out.action, Action::ReadLine(Prompt::Selection));
    let out = session.step(line("0 1 7"));
    assert_eq!(
        out.lines,
        strings(&[
            "[ERR] Item with an index of '7' does not exist",
            "[SUCCESS] Added 2 items for 'team_x'",
        ])
    );
    assert_eq!(out.action, Action::ReadLine(Prompt::Command));
    assert!(awaits_command(&session));

    session.step(line("search team_x"));
    session.step(Event::Page(Some(CatalogPage::Found {
        title: "Team X".to_string(),
        items: vec![item("C", "3")],
    })));
    let out = session.step(line("0"));
    assert_eq!(out.lines, strings(&["[SUCCESS] Added 1 items for 'team_x'"]));

    let out = session.step(line("export"));
    assert_eq!(out.lines, Vec::<String>::new());
    let export = out.export.unwrap();
    assert_eq!(
        export.tokens,
        strings(&[
            "+login",
            "anonymous",
            "+workshop_download_item",
            "440",
            "1",
            "+workshop_download_item",
            "440",
            "2",
            "+workshop_download_item",
            "440",
            "3",
            "+quit",
        ])
    );
    assert_eq!(export.contents, export.tokens.join(" "));
    assert!(export.file_name.starts_with("team_x-"));
    let again = session.step(line("export")).export.unwrap();
    assert_eq!(again.tokens, export.tokens);
}

#[test]
fn selection_of_nothing_files_nothing() {
    let mut session = started();
    session.step(line("search 440"));
    session.step(Event::Page(Some(CatalogPage::Found {
        title: "Team X".to_string(),
        items: vec![item("A", "1")],
    })));
    let out = session.step(line(""));
    assert_eq!(out.lines, Vec::<String>::new());
    assert!(awaits_command(&session));
    assert_eq!(session.manager.workshop.len(), 0);
}

#[test]
fn items_of_an_application_without_an_alias_are_filed_under_the_page_title() {
    let mut session = started();
    session.step(line("alias set team_x 1"));
    session.step(line("search 440"));
    let out = session.step(Event::Page(Some(CatalogPage::Found {
        title: "Team X".to_string(),
        items: vec![item("A", "1"), item("B", "2")],
    })));
    assert_eq!(out.lines, strings(&["0) A [1]", "1) B [2]"]));
    let out = session.step(line("0"));
    assert_eq!(out.lines, strings(&["[SUCCESS] Added 1 items for 'team_x'"]));
    assert_eq!(session.manager.save(), Some(vec![pair("team_x", "1")]));
    assert_eq!(session.manager.workshop.name_of("440"), Some("team_x".to_string()));
    assert_eq!(
        session.manager.script().join(" "),
        "+login anonymous +workshop_download_item 440 1 +quit"
    );
}

#[test]
fn items_are_filed_without_an_alias_table() {
    let mut session = Session::new();
    session.step(line("search 440"));
    let out = session.step(Event::Page(Some(CatalogPage::Found {
        title: "Team  Fortress 2".to_string(),
        items: vec![item("A", "11"), item("B", "22")],
    })));
    assert_eq!(out.lines, strings(&["0) A [11]", "1) B [22]"]));
    let out = session.step(line("1 5 0"));
    assert_eq!(
        out.lines,
        strings(&[
            "[ERR] Item with an index of '5' does not exist",
            "[SUCCESS] Added 2 items for 'team_fortress_2'",
        ])
    );
    assert_eq!(session.manager.save(), None);
    assert_eq!(
        session.manager.script().join(" "),
        "+login anonymous +workshop_download_item 440 22 +workshop_download_item 440 11 +quit"
    );
}

#[test]
fn a_later_selection_goes_to_the_entry_whatever_the_aliases_say() {
    let mut session = started();
    session.step(line("search 440"));
    session.step(Event::Page(Some(CatalogPage::Found {
        title: "Team X".to_string(),
        items: vec![item("A", "1"), item("B", "2")],
    })));
    let out = session.step(line("0"));
    assert_eq!(out.lines, strings(&["[SUCCESS] Added 1 items for 'team_x'"]));
    session.step(line("alias remove team_x"));
    session.step(line("search 440"));
    let out = session.step(Event::Page(Some(CatalogPage::Found {
        title: "Another Title".to_string(),
        items: vec![item("A", "1"), item("B", "2")],
    })));
    assert_eq!(
        out.lines,
        strings(&["[INFO] Added alias for 'another_title'", "0) A [1]", "1) B [2]"])
    );
    let out = session.step(line("1 1"));
    assert_eq!(out.lines, strings(&["[SUCCESS] Added 2 items for 'team_x'"]));
    assert_eq!(
        session.manager.script().join(" "),
        "+login anonymous +workshop_download_item 440 1 +workshop_download_item 440 2 \
         +workshop_download_item 440 2 +quit"
    );
}

#[test]
fn an_identifier_with_a_character_that_is_no_digit_is_a_name() {
    let mut session = started();
    let out = session.step(line("search ½"));
    assert_eq!(out.lines, strings(&["[ERR] App id not found for '½'"]));
    assert_eq!(out.action, Action::ReadLine(Prompt::Command));
    assert!(awaits_command(&session));
    let out = session.step(line("search ٣٤"));
    assert_eq!(out.lines, strings(&["[ERR] App id not found for '٣٤'"]));
    session.step(line("alias set ½ 123"));
    let out = session.step(line("search ½"));
    let url = "https://steamcommunity.com/workshop/browse/?appid=123&searchtext=&days=-1&p=1";
    assert_eq!(out.action, Action::Fetch(url.to_string()));
}

#[test]
fn alias_set_refuses_an_id_that_is_no_text_of_digits() {
    let mut session = started();
    for command in ["alias set x ½", "alias set x ", "alias set x ٣٤", "alias set x 12a"] {
        let out = session.step(line(command));
        assert_eq!(out.lines, strings(&["[ERR] App id must only contains numbers"]), "{}", command);
    }
    assert_eq!(session.manager.save(), Some(vec![]));
    let out = session.step(line("alias set x 012"));
    assert_eq!(out.lines, strings(&["[INFO] Added alias for 'x'"]));
    assert_eq!(session.manager.save(), Some(vec![pair("x", "012")]));
}

#[test]
fn catalog_failures_are_reported_and_the_session_goes_on() {
    let mut session = started();
    session.step(line("search 440"));
    let out = session.step(Event::Page(None));
    assert_eq!(out.lines, strings(&["[ERR] Couldn't access steam workshop at this time"]));
    assert_eq!(out.action, Action::ReadLine(Prompt::Command));
    assert!(awaits_command(&session));
    session.step(line("search 440"));
    let out = session.step(Event::Page(Some(CatalogPage::Missing)));
    assert_eq!(out.lines, strings(&["[ERR] An app with an appID of '440' does not exist"]));
    assert!(awaits_command(&session));
    assert_eq!(session.manager.save(), Some(vec![]));
}

#[test]
fn download_of_an_empty_collection_has_nothing_to_do() {
    let mut session = started();
    let out = session.step(line("download"));
    assert_eq!(out.lines, strings(&["[INFO] No items to download"]));
    assert_eq!(out.export, None);
    assert_eq!(out.action, Action::ReadLine(Prompt::Command));
}

#[test]
fn download_exports_and_launches() {
    let mut session = started();
    session.step(line("search 440"));
    session.step(Event::Page(Some(CatalogPage::Found {
        title: "Team X".to_string(),
        items: vec![item("A", "11"), item("B", "22")],
    })));
    session.step(line("1 0"));
    let out = session.step(line("download"));
    let script = strings(&[
        "+login",
        "anonymous",
        "+workshop_download_item",
        "440",
        "22",
        "+workshop_download_item",
        "440",
        "11",
        "+quit",
    ]);
    assert_eq!(out.lines, Vec::<String>::new());
    assert_eq!(out.action, Action::Launch(script.clone()));
    assert_eq!(out.export.unwrap().tokens, script);
    assert!(matches!(session.pending, Pending::Downloader { item_count: 2 }));
    let out = session.step(Event::Downloaded(DownloadOutcome::Exited {
        success: true,
        diagnostics: "note".to_string(),
    }));
    assert_eq!(out.lines, strings(&["[SUCCESS] Downloaded 2 items", "[INFO] note"]));
    assert!(awaits_command(&session));
    assert_eq!(session.manager.script(), script);
}

#[test]
fn download_from_a_file_reads_the_script() {
    let mut session = started();
    let out = session.step(line("download --file run.txt"));
    assert_eq!(out.lines, Vec::<String>::new());
    assert_eq!(out.action, Action::ReadScript("run.txt".to_string()));
    let out = session.step(Event::Script(Some("+login anonymous +quit".to_string())));
    assert_eq!(out.action, Action::Launch(strings(&["+login", "anonymous", "+quit"])));
    assert_eq!(out.export, None);
    let outcome = DownloadOutcome::NotStarted { cause: "not found".to_string() };
    let out = session.step(Event::Downloaded(outcome));
    assert_eq!(out.lines, strings(&["[ERR] Couldn't download items", "[ERR] Cause: not found"]));
    assert!(awaits_command(&session));
}

#[test]
fn download_from_a_missing_or_empty_file_has_nothing_to_do() {
    let mut session = started();
    session.step(line("download --file run.txt"));
    let out = session.step(Event::Script(None));
    assert_eq!(
        out.lines,
        strings(&[
            "[ERR] File with the path 'run.txt' does not exist",
            "[INFO] No items to download",
        ])
    );
    assert!(awaits_command(&session));
    session.step(line("download --file run.txt"));
    let out = session.step(Event::Script(Some("\n".to_string())));
    assert_eq!(out.lines, strings(&["[INFO] No items to download"]));
    assert!(awaits_command(&session));
}

#[test]
fn unknown_commands_and_malformed_lines_are_reported() {
    let mut session = started();
    let out = session.step(line("frobnicate now"));
    assert_eq!(out.lines, strings(&["[ERR] 'frobnicate' is not a valid command"]));
    assert_eq!(out.action, Action::ReadLine(Prompt::Command));
    let out = session.step(line(""));
    assert_eq!(out.lines, strings(&["[ERR] No command given"]));
    let out = session.step(line("--pages 2"));
    assert_eq!(out.lines, strings(&["[ERR] First argument must be a command"]));
    let out = session.step(line("search 440 --pages"));
    assert_eq!(out.lines, strings(&["[ERR] Every option needs an argument"]));
    let out = session.step(line("search 440 --pages --days"));
    assert_eq!(out.lines, strings(&["[ERR] Argument for an option cannot be an option"]));
    let out = session.step(line("search 440 --pages 1 --pages 2"));
    assert_eq!(out.lines, strings(&["[ERR] Every option can be given only once"]));
    assert!(awaits_command(&session));
}

#[test]
fn help_prints_the_table() {
    let mut session = Session::new();
    let out = session.step(line("help"));
    assert_eq!(out.lines.len(), 7);
    assert!(out.lines[0].starts_with("Command "));
    assert_eq!(out.action, Action::ReadLine(Prompt::Command));
}

#[test]
fn exit_hands_over_the_aliases_and_ends_the_session() {
    let mut session = started();
    session.step(line("alias set my_game 123"));
    let out = session.step(line("exit"));
    assert_eq!(out.lines, strings(&["[EXIT] Saving and exitting..."]));
    assert_eq!(out.action, Action::Exit(Some(vec![pair("my_game", "123")])));
    assert!(matches!(session.pending, Pending::Ended));
    let out = session.step(line("help"));
    assert_eq!(out.lines, Vec::<String>::new());
    assert_eq!(out.action, Action::Exit(Some(vec![pair("my_game", "123")])));
    assert!(matches!(session.pending, Pending::Ended));
}

#[test]
fn exit_without_a_table_stores_nothing() {
    let mut session = Session::new();
    let out = session.step(line("exit"));
    assert_eq!(out.action, Action::Exit(None));
}

#[test]
fn an_event_that_is_not_awaited_ends_what_was_pending() {
    let mut session = started();
    let out = session.step(Event::Page(None));
    assert_eq!(out.lines, Vec::<String>::new());
    assert_eq!(out.action, Action::ReadLine(Prompt::Command));
    session.step(line("search 440"));
    let out = session.step(line("help"));
    assert_eq!(out.lines, Vec::<String>::new());
    assert_eq!(out.action, Action::ReadLine(Prompt::Command));
    assert!(awaits_command(&session));
    let out = session.step(line("help"));
    assert_eq!(out.lines.len(), 7);
}
