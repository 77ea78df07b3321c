use crate::command::error::CommandError;
use crate::game::state::GameState;
use vstd::prelude::*;

verus! {

/// The command that always fails with the error it carries, used to check
/// the pipeline's failure path.
#[derive(Clone, Debug, PartialEq)]
pub struct ThrowErrorCommand {
    /// The error.
    pub error: CommandError,
}

impl ThrowErrorCommand {
    /// Execute the command: return the carried error, changing nothing.
    pub fn execute(&self, game_state: &mut GameState) -> (r: Result<(), CommandError>)
        ensures
            r == Err::<(), CommandError>(self.error),
            final(game_state)@ == old(game_state)@,
    {
        Err(self.error.duplicate())
    }
}

} // verus!
