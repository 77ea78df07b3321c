use saltshore::command::{Command, CommandError, QuitCommand, SucceedCommand, ThrowErrorCommand};
use saltshore::parser::{Parser, ParserError};

#[test]
fn test_parse() {
    let parser = Parser::new();
    let command = parser.parse("quit");
    assert!(command.is_ok());
    assert_eq!(command.unwrap(), Command::Quit(QuitCommand));
}

#[test]
fn test_parse_succeed() {
    let parser = Parser::new();
    let command = parser.parse("debug:succeed");
    assert!(command.is_ok());
    assert_eq!(command.unwrap(), Command::Succeed(SucceedCommand));
}

#[test]
fn test_parse_throw_error_ic() {
    let parser = Parser::new();
    let command = parser.parse("debug:throw_error:ic");
    assert!(command.is_ok());
    assert_eq!(
        command.unwrap(),
        Command::ThrowError(ThrowErrorCommand {
            error: CommandError::InCharacter("Test error.".to_string()),
        })
    );
}

#[test]
fn test_parse_throw_error_oc() {
    let parser = Parser::new();
    let command = parser.parse("debug:throw_error:oc");
    assert!(command.is_ok());
    assert_eq!(
        command.unwrap(),
        Command::ThrowError(ThrowErrorCommand {
            error: CommandError::OutOfCharacter("Test error.".to_string()),
        })
    );
}

#[test]
fn test_parse_invalid() {
    let parser = Parser::new();
    let command = parser.parse("invalid");
    assert!(command.is_err());
}

fn invalid_text(r: Result<Command, ParserError>) -> String {
    match r {
        Err(ParserError::InvalidInput(t)) => t,
        Ok(c) => panic!("parsed as {:?}", c),
    }
}

#[test]
fn parse_trims_surrounding_white_space() {
    let parser = Parser::new();
    assert_eq!(parser.parse("  quit\t\n").unwrap(), Command::Quit(QuitCommand));
    assert_eq!(parser.parse("\u{3000}quit\u{a0}").unwrap(), Command::Quit(QuitCommand));
}

#[test]
fn parse_invalid_carries_trimmed_text() {
    let parser = Parser::new();
    assert_eq!(invalid_text(parser.parse("  look around  ")), "look around");
    assert_eq!(invalid_text(parser.parse("")), "");
    assert_eq!(invalid_text(parser.parse("   ")), "");
}

#[test]
fn parse_is_case_sensitive_and_whole_token() {
    let parser = Parser::new();
    assert_eq!(invalid_text(parser.parse("QUIT")), "QUIT");
    assert_eq!(invalid_text(parser.parse("qui")), "qui");
    assert_eq!(invalid_text(parser.parse("quit now")), "quit now");
    assert_eq!(invalid_text(parser.parse("quit quit")), "quit quit");
    assert_eq!(invalid_text(parser.parse("debug:succeed;")), "debug:succeed;");
}
