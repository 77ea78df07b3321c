use crate::command::Command;
use crate::text::views;
use std::collections::VecDeque;
use vstd::prelude::*;

verus! {

/// The abstract value of a [`GameState`].
pub ghost struct GameStateView {
    /// Whether the session has been asked to end.
    pub terminated: bool,
    /// Raw player text awaiting classification, front first.
    pub inputs: Seq<Seq<char>>,
    /// Classified commands awaiting execution, front first.
    pub commands: Seq<Command>,
}

impl GameStateView {
    /// The state of a fresh session: nothing queued, not terminated.
    pub open spec fn initial() -> GameStateView {
        GameStateView { terminated: false, inputs: Seq::empty(), commands: Seq::empty() }
    }

    /// This state with both queues emptied.
    pub open spec fn cleared(self) -> GameStateView {
        GameStateView { terminated: self.terminated, inputs: Seq::empty(), commands: Seq::empty() }
    }
}

/// The mutable session state, changed only through its named operations.
#[derive(Clone, Debug)]
pub struct GameState {
    quit_flag: bool,
    input_queue: VecDeque<String>,
    command_queue: VecDeque<Command>,
}

impl View for GameState {
    type V = GameStateView;

    closed spec fn view(&self) -> GameStateView {
        GameStateView {
            terminated: self.quit_flag,
            inputs: views(self.input_queue@),
            commands: self.command_queue@,
        }
    }
}

impl GameState {
    /// Create a new game state: nothing queued, not terminated.
    pub fn new() -> (r: GameState)
        ensures
            r@ == GameStateView::initial(),
    {
        let r = GameState {
            quit_flag: false,
            input_queue: VecDeque::new(),
            command_queue: VecDeque::new(),
        };
        assert(r@.inputs =~= Seq::empty());
        r
    }

    /// Whether the session has been asked to end.
    pub fn quit_flag(&self) -> (r: bool)
        ensures
            r == self@.terminated,
    {
        self.quit_flag
    }

    /// Set the termination flag.
    pub fn set_quit_flag(&mut self, flag: bool)
        ensures
            final(self)@ == (GameStateView { terminated: flag, ..old(self)@ }),
    {
        self.quit_flag = flag;
    }

    /// The queue of raw player text, front first.
    pub fn input_queue(&self) -> (r: &VecDeque<String>)
        ensures
            views(r@) == self@.inputs,
    {
        &self.input_queue
    }

    /// The queue of classified commands, front first.
    pub fn command_queue(&self) -> (r: &VecDeque<Command>)
        ensures
            r@ == self@.commands,
    {
        &self.command_queue
    }

    /// Append each of the given lines, in order, to the input queue.
    pub fn enqueue_inputs(&mut self, inputs: Vec<String>)
        ensures
            final(self)@ == (GameStateView {
                inputs: old(self)@.inputs + views(inputs@),
                ..old(self)@
            }),
    {
        let mut i: usize = 0;
        while i < inputs.len()
            invariant
                0 <= i <= inputs.len(),
                self@ == (GameStateView {
                    inputs: old(self)@.inputs + views(inputs@.subrange(0, i as int)),
                    ..old(self)@
                }),
            decreases inputs.len() - i,
        {
            self.enqueue_input(inputs[i].clone());
            assert(views(inputs@.subrange(0, i + 1)) =~= views(inputs@.subrange(0, i as int)).push(
                inputs@[i as int]@,
            ));
            i = i + 1;
        }
        assert(inputs@.subrange(0, i as int) =~= inputs@);
    }

    /// Append a line to the input queue.
    pub fn enqueue_input(&mut self, input: String)
        ensures
            final(self)@ == (GameStateView { inputs: old(self)@.inputs.push(input@), ..old(self)@ }),
    {
        self.input_queue.push_back(input);
        assert(views(self.input_queue@) =~= old(self)@.inputs.push(input@));
    }

    /// Remove and return the front of the input queue, if any.
    pub fn dequeue_input(&mut self) -> (r: Option<String>)
        ensures
            old(self)@.inputs.len() == 0 ==> r is None && final(self)@ == old(self)@,
            old(self)@.inputs.len() > 0 ==> r is Some && r->0@ == old(self)@.inputs[0]
                && final(self)@ == (GameStateView {
                inputs: old(self)@.inputs.drop_first(),
                ..old(self)@
            }),
    {
        let r = self.input_queue.pop_front();
        if r.is_some() {
            assert(views(self.input_queue@) =~= views(old(self).input_queue@).drop_first());
        }
        r
    }

    /// Discard everything in the input queue.
    pub fn clear_input_queue(&mut self)
        ensures
            final(self)@ == (GameStateView { inputs: Seq::empty(), ..old(self)@ }),
    {
        self.input_queue.clear();
        assert(views(self.input_queue@) =~= Seq::empty());
    }

    /// Append a command to the command queue.
    pub fn enqueue_command(&mut self, command: Command)
        ensures
            final(self)@ == (GameStateView {
                commands: old(self)@.commands.push(command),
                ..old(self)@
            }),
    {
        self.command_queue.push_back(command);
    }

    /// Remove and return the front of the command queue, if any.
    pub fn dequeue_command(&mut self) -> (r: Option<Command>)
        ensures
            old(self)@.commands.len() == 0 ==> r is None && final(self)@ == old(self)@,
            old(self)@.commands.len() > 0 ==> r == Some(old(self)@.commands[0])
                && final(self)@ == (GameStateView {
                commands: old(self)@.commands.drop_first(),
                ..old(self)@
            }),
    {
        let r = self.command_queue.pop_front();
        if r.is_some() {
            assert(self.command_queue@ =~= old(self).command_queue@.drop_first());
        }
        r
    }

    /// Discard everything in the command queue.
    pub fn clear_command_queue(&mut self)
        ensures
            final(self)@ == (GameStateView { commands: Seq::empty(), ..old(self)@ }),
    {
        self.command_queue.clear();
    }
}

impl Default for GameState {
    fn default() -> (r: GameState)
        ensures
            r@ == GameStateView::initial(),
    {
        GameState::new()
    }
}

} // verus!
