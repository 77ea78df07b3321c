use crate::command::error::CommandError;
use crate::game::state::GameState;
use vstd::prelude::*;

verus! {

/// The command that vacuously succeeds, used to check the pipeline.
#[derive(Clone, Copy, Debug, PartialEq)]
pub struct SucceedCommand;

impl SucceedCommand {
    /// Execute the command: change nothing, never fail.
    pub fn execute(&self, game_state: &mut GameState) -> (r: Result<(), CommandError>)
        ensures
            r == Ok::<(), CommandError>(()),
            final(game_state)@ == old(game_state)@,
    {
        Ok(())
    }
}

} // verus!
