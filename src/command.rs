use crate::game::state::{GameState, GameStateView};
use vstd::prelude::*;

/// The individual command types.
pub mod commands;
/// The errors that executing a command can produce.
pub mod error;

pub use commands::quit::QuitCommand;
pub use commands::succeed::SucceedCommand;
pub use commands::throw_error::ThrowErrorCommand;
pub use error::CommandError;

verus! {

/// An executable player action. The set of variants is closed: every
/// dispatch over it is an exhaustive `match`.
#[derive(Clone, Debug, PartialEq)]
pub enum Command {
    /// Succeed silently.
    Succeed(SucceedCommand),
    /// Fail with the carried error.
    ThrowError(ThrowErrorCommand),
    /// End the session.
    Quit(QuitCommand),
}

impl Command {
    /// What executing the command returns.
    pub open spec fn outcome(self) -> Result<(), CommandError> {
        match self {
            Command::Succeed(_) => Ok(()),
            Command::ThrowError(c) => Err(c.error),
            Command::Quit(_) => Ok(()),
        }
    }

    /// The game state after executing the command on `s`.
    pub open spec fn apply(self, s: GameStateView) -> GameStateView {
        match self {
            Command::Succeed(_) => s,
            Command::ThrowError(_) => s,
            Command::Quit(_) => GameStateView { terminated: true, ..s },
        }
    }

    /// Execute the command against the game state.
    pub fn execute(&self, game_state: &mut GameState) -> (r: Result<(), CommandError>)
        ensures
            r == self.outcome(),
            final(game_state)@ == self.apply(old(game_state)@),
    {
        match self {
            Command::Succeed(command) => command.execute(game_state),
            Command::ThrowError(command) => command.execute(game_state),
            Command::Quit(command) => command.execute(game_state),
        }
    }
}

} // verus!
