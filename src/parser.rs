use crate::command::{Command, CommandError, QuitCommand, SucceedCommand, ThrowErrorCommand};
use crate::text::{trim, trimmed};
use vstd::prelude::*;

verus! {

/// An error that can occur when parsing player input: a failure of the
/// input's content, not of the mechanics of reading it.
#[derive(Clone, Debug)]
pub enum ParserError {
    /// The text, trimmed, is not a recognized command.
    InvalidInput(String),
}

/// The player-facing token that ends the session.
pub open spec fn quit_token() -> Seq<char> {
    "quit"@
}

/// The diagnostic token for a command that always succeeds.
pub open spec fn succeed_token() -> Seq<char> {
    "debug:succeed"@
}

/// The diagnostic token for a command that fails in character.
pub open spec fn in_character_token() -> Seq<char> {
    "debug:throw_error:ic"@
}

/// The diagnostic token for a command that fails out of character.
pub open spec fn out_of_character_token() -> Seq<char> {
    "debug:throw_error:oc"@
}

/// The message that the diagnostic failing commands carry.
pub open spec fn canned_message() -> Seq<char> {
    "Test error."@
}

/// Whether `text` is one of the recognized tokens.
pub open spec fn recognized(text: Seq<char>) -> bool {
    ||| text == quit_token()
    ||| text == succeed_token()
    ||| text == in_character_token()
    ||| text == out_of_character_token()
}

/// Whether `c` is the command that the recognized token `text` stands for.
pub open spec fn denotes(text: Seq<char>, c: Command) -> bool {
    if text == quit_token() {
        c == Command::Quit(QuitCommand)
    } else if text == succeed_token() {
        c == Command::Succeed(SucceedCommand)
    } else if text == in_character_token() {
        c matches Command::ThrowError(t) && t.error matches CommandError::InCharacter(m) && m@
            == canned_message()
    } else if text == out_of_character_token() {
        c matches Command::ThrowError(t) && t.error matches CommandError::OutOfCharacter(m) && m@
            == canned_message()
    } else {
        false
    }
}

/// Whether `r` is what parsing `line` gives: the command that the trimmed
/// line stands for, or `InvalidInput` carrying the trimmed line.
pub open spec fn parses_to(line: Seq<char>, r: Result<Command, ParserError>) -> bool {
    let t = trim(line);
    if recognized(t) {
        r matches Ok(c) && denotes(t, c)
    } else {
        r matches Err(ParserError::InvalidInput(e)) && e@ == t
    }
}

/// The command parser: a pure map from a line of text to a command.
#[derive(Clone, Copy, Debug, Default)]
pub struct Parser;

impl Parser {
    /// Create a new parser.
    pub fn new() -> (r: Parser)
        ensures
            r == Parser,
    {
        Parser
    }

    /// Parse a line into a command. The line is trimmed of white space; the
    /// match against the vocabulary is exact, whole-token and
    /// case-sensitive, so a line of two or more tokens is never recognized.
    pub fn parse(&self, input: &str) -> (r: Result<Command, ParserError>)
        ensures
            parses_to(input@, r),
    {
        let t = trimmed(input);
        if t == String::from_str("quit") {
            Ok(Command::Quit(QuitCommand))
        } else if t == String::from_str("debug:succeed") {
            Ok(Command::Succeed(SucceedCommand))
        } else if t == String::from_str("debug:throw_error:ic") {
            Ok(
                Command::ThrowError(
                    ThrowErrorCommand {
                        error: CommandError::InCharacter(String::from_str("Test error.")),
                    },
                ),
            )
        } else if t == String::from_str("debug:throw_error:oc") {
            Ok(
                Command::ThrowError(
                    ThrowErrorCommand {
                        error: CommandError::OutOfCharacter(String::from_str("Test error.")),
                    },
                ),
            )
        } else {
            Err(ParserError::InvalidInput(t))
        }
    }
}

} // verus!
