use crate::command::error::CommandError;
use crate::input::error::InputError;
use crate::output::error::OutputError;
use crate::parser::ParserError;
use vstd::prelude::*;

verus! {

/// Any error that can end a run of the game loop.
#[derive(Debug)]
pub enum GameError {
    /// The input source failed.
    InputError(InputError),
    /// The output sink failed.
    OutputError(OutputError),
    /// Player input could not be parsed.
    ParserError(ParserError),
    /// A command failed.
    CommandError(CommandError),
}

} // verus!
