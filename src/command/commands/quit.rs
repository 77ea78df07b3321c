use crate::command::error::CommandError;
use crate::game::state::{GameState, GameStateView};
use vstd::prelude::*;

verus! {

/// The command that ends the session.
#[derive(Clone, Copy, Debug, PartialEq)]
pub struct QuitCommand;

impl QuitCommand {
    /// Execute the command: set the termination flag. Never fails.
    pub fn execute(&self, game_state: &mut GameState) -> (r: Result<(), CommandError>)
        ensures
            r == Ok::<(), CommandError>(()),
            final(game_state)@ == (GameStateView { terminated: true, ..old(game_state)@ }),
    {
        game_state.set_quit_flag(true);
        Ok(())
    }
}

} // verus!
