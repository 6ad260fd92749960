use rswc::cli::{InputParser, ParseError};
use rswc::utils::ErrorKind;

fn strings(items: &[&str]) -> Vec<String> {
    items.iter().map(|s| s.to_string()).collect()
}

#[test]
fn parses_command_arguments_and_options() {
    let parsed = InputParser::new("search 440 zombies --pages 2").unwrap();
    assert_eq!(parsed.command, "search");
    assert_eq!(parsed.args, strings(&["440", "zombies"]));
    assert_eq!(parsed.options, vec![("--pages".to_string(), "2".to_string())]);
    assert_eq!(parsed.option("--pages"), Some("2".to_string()));
    assert_eq!(parsed.option("--days"), None);
}

#[test]
fn line_without_options_keeps_every_token_as_argument() {
    let parsed = InputParser::new("alias set my_game 123").unwrap();
    assert_eq!(parsed.command, "alias");
    assert_eq!(parsed.args, strings(&["set", "my_game", "123"]));
    assert!(parsed.options.is_empty());
}

#[test]
fn single_word_has_no_arguments() {
    let parsed = InputParser::new("help").unwrap();
    assert_eq!(parsed.command, "help");
    assert!(parsed.args.is_empty());
    assert!(parsed.options.is_empty());
}

#[test]
fn consecutive_spaces_give_empty_tokens() {
    let parsed = InputParser::new("search  440 ").unwrap();
    assert_eq!(parsed.command, "search");
    assert_eq!(parsed.args, strings(&["", "440", ""]));
}

#[test]
fn empty_line_is_rejected() {
    assert_eq!(InputParser::new("").err(), Some(ParseError::EmptyLine));
}

#[test]
fn leading_option_is_rejected() {
    assert_eq!(InputParser::new("--pages 2").err(), Some(ParseError::CommandIsOption));
    assert_eq!(InputParser::new("--").err(), Some(ParseError::CommandIsOption));
    assert_eq!(ParseError::CommandIsOption.kind(), ErrorKind::MalformedInput);
}

#[test]
fn dangling_option_is_rejected() {
    assert_eq!(InputParser::new("search 440 --pages").err(), Some(ParseError::DanglingOption));
    assert_eq!(
        InputParser::new("search 440 --pages 2 --days").err(),
        Some(ParseError::DanglingOption)
    );
}

#[test]
fn option_value_that_is_an_option_is_rejected() {
    assert_eq!(
        InputParser::new("search 440 --pages --days").err(),
        Some(ParseError::ValueIsOption)
    );
}

#[test]
fn duplicate_option_is_rejected() {
    assert_eq!(
        InputParser::new("search 440 --pages 2 --pages 3").err(),
        Some(ParseError::DuplicateOption)
    );
}

#[test]
fn single_hyphen_is_no_option_marker() {
    let parsed = InputParser::new("search -x 1").unwrap();
    assert_eq!(parsed.args, strings(&["-x", "1"]));
    assert!(parsed.options.is_empty());
}

#[test]
fn every_parse_error_is_malformed_input() {
    for error in [
        ParseError::EmptyLine,
        ParseError::CommandIsOption,
        ParseError::DanglingOption,
        ParseError::ValueIsOption,
        ParseError::DuplicateOption,
    ] {
        assert_eq!(error.kind(), ErrorKind::MalformedInput);
    }
}
