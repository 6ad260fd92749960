use rswc::manager::{AliasChange, Config, ConfigProperties, ConfigSource, Manager};
use rswc::text::is_decimal_number;
use rswc::utils::{log_line, underscore_words, underscorize, CommandError, ErrorKind, LogLevel};

fn pair(name: &str, id: &str) -> (String, String) {
    (name.to_string(), id.to_string())
}

#[test]
fn underscorize_lowercases_and_joins_words() {
    assert_eq!(underscorize("My Game".to_string()), "my_game");
    assert_eq!(underscorize("  Team   Fortress\t2 ".to_string()), "team_fortress_2");
    assert_eq!(underscorize("already_normal".to_string()), "already_normal");
    assert_eq!(underscorize("".to_string()), "");
    assert_eq!(underscorize("   ".to_string()), "");
    assert_eq!(underscorize("ÉLAN Vital".to_string()), "élan_vital");
}

#[test]
fn underscorize_is_idempotent_on_examples() {
    for text in [
        "",
        " ",
        "My Game",
        "  Team   Fortress\t2 ",
        "a_b c",
        "ΟΔΟΣ ΑΣ",
        "İstanbul Gezi",
        "ǅungla",
        "Steam Workshop::Left 4 Dead 2",
    ] {
        let once = underscorize(text.to_string());
        let twice = underscorize(once.clone());
        assert_eq!(twice, once, "{:?}", text);
    }
}

#[test]
fn underscorize_is_idempotent_on_single_characters() {
    let mut code: u32 = 0;
    while code <= 0x10ffff {
        if let Some(c) = char::from_u32(code) {
            let once = underscorize(c.to_string());
            let twice = underscorize(once.clone());
            assert_eq!(twice, once, "U+{:04X}", code);
        }
        code += if code < 0x3100 { 1 } else { 97 };
    }
}

#[test]
fn an_id_is_a_text_of_ascii_digits() {
    assert!(is_decimal_number("440"));
    assert!(is_decimal_number("0"));
    assert!(is_decimal_number("007"));
    assert!(is_decimal_number("99999999999999999999999999"));
    assert!(!is_decimal_number(""));
    assert!(!is_decimal_number("٣٤"));
    assert!(!is_decimal_number("½"));
    assert!(!is_decimal_number("44a"));
    assert!(!is_decimal_number("4 4"));
    assert!(!is_decimal_number("my_game"));
    assert!(!is_decimal_number("-1"));
    assert!(!is_decimal_number("+1"));
}

#[test]
fn a_name_with_a_character_that_is_no_digit_resolves_to_its_alias() {
    let mut table = ConfigProperties::new();
    assert_eq!(table.resolve("½"), None);
    assert_eq!(table.resolve("٣٤"), None);
    assert_eq!(table.resolve(""), None);
    table.set_alias_by_values("½".to_string(), "123".to_string());
    table.set_alias_by_values("٣٤".to_string(), "456".to_string());
    table.set_alias_by_values("".to_string(), "789".to_string());
    assert_eq!(table.resolve("½"), Some("123".to_string()));
    assert_eq!(table.resolve("٣٤"), Some("456".to_string()));
    assert_eq!(table.resolve(""), Some("789".to_string()));
    assert_eq!(table.resolve("34"), Some("34".to_string()));
}

#[test]
fn set_then_resolve_returns_the_id() {
    let mut table = ConfigProperties::new();
    let change = table.set_alias_by_values("my_game".to_string(), "123".to_string());
    assert_eq!(change, AliasChange::Added);
    assert_eq!(table.resolve("my_game"), Some("123".to_string()));
    assert_eq!(table.resolve("My Game"), Some("123".to_string()));
    assert_eq!(table.resolve(" MY  GAME "), Some("123".to_string()));
    assert_eq!(table.resolve("other"), None);
}

#[test]
fn set_overwrites_and_says_so() {
    let mut table = ConfigProperties::new();
    assert_eq!(table.set_alias_by_values("Game".to_string(), "1".to_string()), AliasChange::Added);
    assert_eq!(table.set_alias_by_values("other".to_string(), "2".to_string()), AliasChange::Added);
    let change = table.set_alias_by_values("GAME".to_string(), "3".to_string());
    assert_eq!(change, AliasChange::Updated);
    assert_eq!(table.entries(), vec![pair("game", "3"), pair("other", "2")]);
    assert_eq!(table.resolve("game"), Some("3".to_string()));
}

#[test]
fn numeric_identifier_resolves_to_itself() {
    let mut table = ConfigProperties::new();
    assert_eq!(table.resolve("440"), Some("440".to_string()));
    table.set_alias_by_values("123".to_string(), "456".to_string());
    assert_eq!(table.resolve("123"), Some("123".to_string()));
    assert_eq!(table.get_app_id_by_name("123".to_string()), Some("456".to_string()));
}

#[test]
fn exact_lookup_does_not_normalise() {
    let mut table = ConfigProperties::new();
    table.set_alias_by_values("My Game".to_string(), "123".to_string());
    assert_eq!(table.get_app_id_by_name("my_game".to_string()), Some("123".to_string()));
    assert_eq!(table.get_app_id_by_name("My Game".to_string()), None);
}

#[test]
fn reverse_lookup_returns_the_first_name_in_order() {
    let mut table = ConfigProperties::new();
    table.set_alias_by_values("first".to_string(), "440".to_string());
    table.set_alias_by_values("second".to_string(), "440".to_string());
    table.set_alias_by_values("third".to_string(), "550".to_string());
    assert_eq!(table.get_name_by_app_id("440".to_string()), Some("first".to_string()));
    assert_eq!(table.get_name_by_app_id("550".to_string()), Some("third".to_string()));
    assert_eq!(table.get_name_by_app_id("660".to_string()), None);
    assert!(table.remove_alias("first".to_string()));
    assert_eq!(table.get_name_by_app_id("440".to_string()), Some("second".to_string()));
}

#[test]
fn remove_reports_whether_there_was_an_entry() {
    let mut table = ConfigProperties::new();
    table.set_alias_by_values("a".to_string(), "1".to_string());
    table.set_alias_by_values("b".to_string(), "2".to_string());
    table.set_alias_by_values("c".to_string(), "3".to_string());
    assert!(table.remove_alias(" B ".to_string()));
    assert_eq!(table.entries(), vec![pair("a", "1"), pair("c", "3")]);
    assert!(!table.remove_alias("b".to_string()));
    assert_eq!(table.entries(), vec![pair("a", "1"), pair("c", "3")]);
}

#[test]
fn catalog_title_is_registered_once() {
    let mut table = ConfigProperties::new();
    assert!(table.set_alias(" 440\n".to_string(), "Team Fortress 2".to_string()));
    assert_eq!(table.entries(), vec![pair("team_fortress_2", "440")]);
    assert!(!table.set_alias("999".to_string(), "team fortress 2".to_string()));
    assert_eq!(table.entries(), vec![pair("team_fortress_2", "440")]);
}

#[test]
fn stored_entries_are_taken_as_they_stand() {
    let table = ConfigProperties::from_entries(vec![
        pair("My Game", "1"),
        pair("other", "2"),
        pair("My Game", "3"),
    ]);
    assert_eq!(table.entries(), vec![pair("My Game", "3"), pair("other", "2")]);
    assert_eq!(ConfigProperties::from_entries(vec![]).entries(), vec![]);
}

#[test]
fn config_starts_without_a_table() {
    let mut config = Config::new();
    assert!(config.get_props_ref().is_none());
    assert!(config.get_props_mut().is_none());
}

#[test]
fn config_loads_what_was_stored() {
    let mut config = Config::new();
    assert_eq!(config.load_config(ConfigSource::Stored(vec![pair("game", "1")])), Ok(()));
    assert_eq!(config.get_props_ref().unwrap().entries(), vec![pair("game", "1")]);
    config.get_props_mut().unwrap().set_alias_by_values("x".to_string(), "2".to_string());
    assert_eq!(config.get_props_ref().unwrap().entries(), vec![pair("game", "1"), pair("x", "2")]);
}

#[test]
fn missing_store_gives_an_empty_table() {
    let mut config = Config::new();
    assert_eq!(config.load_config(ConfigSource::Missing), Ok(()));
    assert_eq!(config.get_props_ref().unwrap().entries(), vec![]);
}

#[test]
fn corrupt_store_is_an_error_and_changes_nothing() {
    let mut config = Config::new();
    assert_eq!(config.load_config(ConfigSource::Corrupt), Err(ErrorKind::ConfigCorrupt));
    assert!(config.get_props_ref().is_none());
    config.load_config(ConfigSource::Stored(vec![pair("game", "1")])).unwrap();
    assert_eq!(config.load_config(ConfigSource::Corrupt), Err(ErrorKind::ConfigCorrupt));
    assert_eq!(config.get_props_ref().unwrap().entries(), vec![pair("game", "1")]);
}

#[test]
fn save_returns_the_entries_of_the_table() {
    let mut manager = Manager::new();
    assert_eq!(manager.save(), None);
    manager.config.load_config(ConfigSource::Missing).unwrap();
    assert_eq!(manager.save(), Some(vec![]));
    manager.config.get_props_mut().unwrap().set_alias_by_values("A b".to_string(), "7".to_string());
    assert_eq!(manager.save(), Some(vec![pair("a_b", "7")]));
}

#[test]
fn log_lines_carry_the_tag_of_their_level() {
    assert_eq!(log_line(LogLevel::INFO, "hello"), "[INFO] hello");
    assert_eq!(log_line(LogLevel::SUCCESS, "hello"), "[SUCCESS] hello");
    assert_eq!(log_line(LogLevel::WARN, "hello"), "[WARN] hello");
    assert_eq!(log_line(LogLevel::ERR, "hello"), "[ERR] hello");
    assert_eq!(log_line(LogLevel::EXIT, ""), "[EXIT] ");
}

#[test]
fn every_error_has_its_class_level_and_message() {
    let malformed = ErrorKind::MalformedInput;
    let missing = ErrorKind::NotFound;
    let failed = ErrorKind::CollaboratorFailure;
    let cases = [
        (CommandError::UnknownCommand, malformed, "[ERR] 'x' is not a valid command"),
        (CommandError::InsufficientArguments, malformed, "[ERR] Insufficient arguments"),
        (CommandError::InvalidAction, malformed, "[ERR] 'x' is not a valid command"),
        (CommandError::AppIdNotNumeric, malformed, "[ERR] App id must only contains numbers"),
        (CommandError::NoConfig, missing, "[WARN] No config found"),
        (CommandError::NoAliases, missing, "[WARN] No aliases found"),
        (CommandError::AliasNotFound, missing, "[ERR] No alias found for 'x'"),
        (CommandError::AppIdNotFound, missing, "[ERR] App id not found for 'x'"),
        (CommandError::AppNameNotFound, missing, "[ERR] No alias names the app 'x'"),
        (CommandError::ItemNotFound, missing, "[ERR] Item with an index of 'x' does not exist"),
        (
            CommandError::CatalogUnreachable,
            failed,
            "[ERR] Couldn't access steam workshop at this time",
        ),
        (CommandError::AppNotInCatalog, failed, "[ERR] An app with an appID of 'x' does not exist"),
        (CommandError::FileNotFound, failed, "[ERR] File with the path 'x' does not exist"),
        (CommandError::UnsupportedFile, malformed, "[ERR] File with type 'x' not supported"),
        (CommandError::InvalidItemId, malformed, "[ERR] 'x' is not an item id"),
        (CommandError::DownloadFailed, failed, "[ERR] Couldn't download items"),
    ];
    for (error, kind, line) in cases {
        assert_eq!(error.kind(), kind, "{:?}", error);
        assert_eq!(error.line("x"), line, "{:?}", error);
    }
}

#[test]
fn store_is_missing_corrupt_or_taken() {
    assert_eq!(ConfigSource::from_store(None, None), ConfigSource::Missing);
    assert_eq!(ConfigSource::from_store(None, Some(vec![pair("a", "1")])), ConfigSource::Missing);
    assert_eq!(ConfigSource::from_store(Some(String::new()), None), ConfigSource::Missing);
    assert_eq!(ConfigSource::from_store(Some(" \n".to_string()), None), ConfigSource::Missing);
    assert_eq!(ConfigSource::from_store(Some("{".to_string()), None), ConfigSource::Corrupt);
    assert_eq!(
        ConfigSource::from_store(Some("{}".to_string()), Some(vec![])),
        ConfigSource::Stored(vec![])
    );
    assert_eq!(
        ConfigSource::from_store(
            Some("{\"aliases\":{\"a\":\"1\"}}".to_string()),
            Some(vec![pair("a", "1")])
        ),
        ConfigSource::Stored(vec![pair("a", "1")])
    );
}

#[test]
fn words_are_joined_by_single_underscores() {
    assert_eq!(underscore_words(""), "");
    assert_eq!(underscore_words(" \t"), "");
    assert_eq!(underscore_words("one"), "one");
    assert_eq!(underscore_words("  Team   Fortress\t2 "), "Team_Fortress_2");
    assert_eq!(underscore_words("a_b  c"), "a_b_c");
    assert_eq!(underscore_words(&underscore_words(" x  y ")), underscore_words(" x  y "));
}

#[test]
fn names_are_bound_as_they_stand() {
    let mut table = ConfigProperties::new();
    assert_eq!(table.bind("My Game".to_string(), "1".to_string()), AliasChange::Added);
    assert_eq!(table.bind("my_game".to_string(), "2".to_string()), AliasChange::Added);
    assert_eq!(table.bind("My Game".to_string(), "3".to_string()), AliasChange::Updated);
    assert_eq!(table.entries(), vec![pair("My Game", "3"), pair("my_game", "2")]);
    assert_eq!(table.get_app_id_by_name("My Game".to_string()), Some("3".to_string()));
    assert!(!table.unbind("MY GAME"));
    assert!(table.unbind("My Game"));
    assert_eq!(table.entries(), vec![pair("my_game", "2")]);
    assert_eq!(table.get_app_id_by_name("My Game".to_string()), None);
}

#[test]
fn register_never_overwrites() {
    let mut table = ConfigProperties::new();
    assert!(table.register("game".to_string(), "1".to_string()));
    assert!(!table.register("game".to_string(), "2".to_string()));
    assert!(table.register("Game".to_string(), "2".to_string()));
    assert_eq!(table.entries(), vec![pair("game", "1"), pair("Game", "2")]);
}
