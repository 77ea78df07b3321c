use crate::command::error::CommandError;
use crate::game::state::{GameState, GameStateView};
use crate::parser::{denotes, recognized, Parser};
use crate::text::{trim, views};
use vstd::prelude::*;

verus! {

/// Where a session stands within one cycle of the loop.
#[derive(Clone, Copy, Debug, PartialEq, Eq, Structural)]
pub enum Stage {
    /// Between cycles.
    Idle,
    /// Looking for the next command to execute.
    Acquiring,
    /// The player was prompted; the next source line is awaited.
    AwaitingLine,
    /// The cycle failed and has reported why; it ends at the next step.
    Closing,
}

/// The abstract value of a [`Session`].
pub ghost struct SessionView {
    /// The game state.
    pub state: GameStateView,
    /// Where the session stands within the current cycle.
    pub stage: Stage,
}

/// The abstract value of a [`Step`].
pub ghost enum Reply {
    /// Write this text as a line.
    Say(Seq<char>),
    /// Prompt the player, read one line and hand it to the session.
    Prompt,
    /// Nothing to do; step again.
    Continue,
    /// The cycle is over.
    Done,
}

/// What the driver of a session must do after a step.
#[derive(Debug)]
pub enum Step {
    /// Write this text as a line.
    Say(String),
    /// Prompt the player, read one line and hand it to [`Session::supply`].
    Prompt,
    /// Nothing to do; step again.
    Continue,
    /// The cycle is over.
    Done,
}

impl View for Step {
    type V = Reply;

    open spec fn view(&self) -> Reply {
        match self {
            Step::Say(s) => Reply::Say(s@),
            Step::Prompt => Reply::Prompt,
            Step::Continue => Reply::Continue,
            Step::Done => Reply::Done,
        }
    }
}

/// The scene line reported at the start of every cycle.
pub open spec fn scene_text() -> Seq<char> {
    "You are standing in an open field west of a white house, with a boarded front door."@
}

/// The line that reports a command's failure.
pub open spec fn error_line(e: CommandError) -> Seq<char> {
    "Error: "@ + e.text()
}

/// The line that apologizes for text that is not a command.
pub open spec fn apology(input: Seq<char>) -> Seq<char> {
    "I'm sorry, I don't understand '"@ + input + "'."@
}

/// `s` at the given stage.
pub open spec fn at(s: GameStateView, stage: Stage) -> SessionView {
    SessionView { state: s, stage }
}

/// Whether one step takes the session from `pre` to `post` with `reply`.
///
/// Acquiring, queued commands come first: the front one is executed; on
/// success the cycle is over, on failure its error is reported and both
/// queues are cleared. Else the front input is classified: a command is
/// queued, anything else is apologized for and both queues are cleared.
/// With both queues empty, the player is prompted.
pub open spec fn advanced(pre: SessionView, post: SessionView, reply: Reply) -> bool {
    let g = pre.state;
    match pre.stage {
        Stage::Acquiring => {
            if g.commands.len() > 0 {
                let c = g.commands[0];
                let after = c.apply(GameStateView { commands: g.commands.drop_first(), ..g });
                match c.outcome() {
                    Ok(_) => post == at(after, Stage::Idle) && reply == Reply::Done,
                    Err(e) => post == at(after.cleared(), Stage::Closing) && reply == Reply::Say(
                        error_line(e),
                    ),
                }
            } else if g.inputs.len() > 0 {
                let line = g.inputs[0];
                let rest = GameStateView { inputs: g.inputs.drop_first(), ..g };
                if recognized(trim(line)) {
                    &&& post.stage == Stage::Acquiring
                    &&& post.state.terminated == rest.terminated
                    &&& post.state.inputs == rest.inputs
                    &&& post.state.commands.len() == 1
                    &&& denotes(trim(line), post.state.commands[0])
                    &&& reply == Reply::Continue
                } else {
                    post == at(rest.cleared(), Stage::Closing) && reply == Reply::Say(apology(line))
                }
            } else {
                post == at(g, Stage::AwaitingLine) && reply == Reply::Prompt
            }
        },
        Stage::Closing => post == at(g, Stage::Idle) && reply == Reply::Done,
        Stage::Idle => post == pre && reply == Reply::Done,
        Stage::AwaitingLine => false,
    }
}

/// The session after the awaited source line arrives as `batch`, or
/// end-of-stream as `None`: end-of-stream terminates the session and ends
/// the cycle; a batch is queued, in order, and acquisition goes on.
pub open spec fn supplied(pre: SessionView, batch: Option<Seq<Seq<char>>>) -> SessionView {
    match batch {
        None => at(GameStateView { terminated: true, ..pre.state }, Stage::Idle),
        Some(b) => at(GameStateView { inputs: pre.state.inputs + b, ..pre.state }, Stage::Acquiring),
    }
}

/// The decisions of the game loop, apart from any input or output: a
/// machine from events (a step, a source line) to actions for its driver.
#[derive(Debug)]
pub struct Session {
    state: GameState,
    parser: Parser,
    stage: Stage,
}

impl View for Session {
    type V = SessionView;

    closed spec fn view(&self) -> SessionView {
        SessionView { state: self.state@, stage: self.stage }
    }
}

/// The scene line reported at the start of every cycle.
pub fn scene() -> (r: String)
    ensures
        r@ == scene_text(),
{
    String::from_str(
        "You are standing in an open field west of a white house, with a boarded front door.",
    )
}

/// The line that reports a command's failure.
pub fn describe_failure(e: &CommandError) -> (r: String)
    ensures
        r@ == error_line(*e),
{
    let mut r = String::from_str("Error: ");
    let m = e.message();
    r.append(m.as_str());
    r
}

/// The line that apologizes for text that is not a command.
pub fn describe_invalid(input: &str) -> (r: String)
    ensures
        r@ == apology(input@),
{
    let mut r = String::from_str("I'm sorry, I don't understand '");
    r.append(input);
    r.append("'.");
    r
}

impl Session {
    /// Create a session, between cycles, over the given state.
    pub fn new(state: GameState, parser: Parser) -> (r: Session)
        ensures
            r@ == at(state@, Stage::Idle),
    {
        Session { state, parser, stage: Stage::Idle }
    }

    /// The game state.
    pub fn state(&self) -> (r: &GameState)
        ensures
            r@ == self@.state,
    {
        &self.state
    }

    /// The game state, to change through its own operations.
    pub fn state_mut(&mut self) -> (r: &mut GameState)
        ensures
            r@ == old(self)@.state,
            final(self)@ == at(final(r)@, old(self)@.stage),
    {
        &mut self.state
    }

    /// Where the session stands within the current cycle.
    pub fn stage(&self) -> (r: Stage)
        ensures
            r == self@.stage,
    {
        self.stage
    }

    /// Whether the session is over.
    pub fn is_finished(&self) -> (r: bool)
        ensures
            r == self@.state.terminated,
    {
        self.state.quit_flag()
    }

    /// Start a cycle: begin looking for a command.
    pub fn begin(&mut self)
        requires
            old(self)@.stage == Stage::Idle,
        ensures
            final(self)@ == at(old(self)@.state, Stage::Acquiring),
    {
        self.stage = Stage::Acquiring;
    }

    /// Take one step of the current cycle (see [`advanced`]).
    pub fn step(&mut self) -> (r: Step)
        requires
            old(self)@.stage != Stage::AwaitingLine,
        ensures
            advanced(old(self)@, final(self)@, r@),
    {
        match self.stage {
            Stage::Idle => Step::Done,
            Stage::Closing => {
                self.stage = Stage::Idle;
                Step::Done
            },
            Stage::AwaitingLine => Step::Done,
            Stage::Acquiring => {
                if let Some(command) = self.state.dequeue_command() {
                    match command.execute(&mut self.state) {
                        Ok(()) => {
                            self.stage = Stage::Idle;
                            Step::Done
                        },
                        Err(e) => {
                            let line = describe_failure(&e);
                            self.clear_queues();
                            self.stage = Stage::Closing;
                            Step::Say(line)
                        },
                    }
                } else if let Some(input) = self.state.dequeue_input() {
                    match self.parser.parse(input.as_str()) {
                        Ok(command) => {
                            self.state.enqueue_command(command);
                            Step::Continue
                        },
                        Err(_) => Step::Say(self.handle_invalid_input(input.as_str())),
                    }
                } else {
                    self.stage = Stage::AwaitingLine;
                    Step::Prompt
                }
            },
        }
    }

    /// Hand the awaited source line, cut into its batch, to the session;
    /// `None` is end-of-stream (see [`supplied`]).
    pub fn supply(&mut self, batch: Option<Vec<String>>)
        requires
            old(self)@.stage == Stage::AwaitingLine,
        ensures
            final(self)@ == supplied(
                old(self)@,
                match batch {
                    Some(b) => Some(views(b@)),
                    None => None,
                },
            ),
    {
        match batch {
            Some(inputs) => {
                self.state.enqueue_inputs(inputs);
                self.stage = Stage::Acquiring;
            },
            None => {
                self.state.set_quit_flag(true);
                self.stage = Stage::Idle;
            },
        }
    }

    /// Discard both queues.
    fn clear_queues(&mut self)
        ensures
            final(self)@ == at(old(self)@.state.cleared(), old(self)@.stage),
    {
        self.state.clear_input_queue();
        self.state.clear_command_queue();
    }

    /// Reject text that is not a command: discard the whole pending batch
    /// and end the cycle. Returns the apology to show.
    fn handle_invalid_input(&mut self, input: &str) -> (r: String)
        ensures
            r@ == apology(input@),
            final(self)@ == at(old(self)@.state.cleared(), Stage::Closing),
    {
        let line = describe_invalid(input);
        self.clear_queues();
        self.stage = Stage::Closing;
        line
    }
}

} // verus!
