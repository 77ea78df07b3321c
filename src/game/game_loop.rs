use crate::command::error::CommandError;
use crate::command::{Command, QuitCommand};
use crate::game::error::GameError;
use crate::game::session::{
    apology, at, error_line, scene, scene_text, Session, SessionView, Stage, Step,
};
use crate::game::state::{GameState, GameStateView};
use crate::input::reader::{batch_of, InputReader, MockReader};
use crate::output::writer::{emit_line, prompt_text, MockWriter, OutputWriter};
use crate::parser::{denotes, recognized, Parser};
use crate::text::trim;
use vstd::prelude::*;

verus! {

/// Where a part of a session leaves the game state, the source and the sink.
pub ghost struct Outcome {
    /// The game state.
    pub state: GameStateView,
    /// The source lines not read yet.
    pub lines: Seq<Seq<char>>,
    /// The pieces written to the sink.
    pub written: Seq<Seq<char>>,
}

/// How far a session at `s` is from the end of its cycle, with the source
/// left as it is.
pub open spec fn rank(s: SessionView) -> int {
    match s.stage {
        Stage::Idle => 0,
        Stage::Closing => 0,
        Stage::AwaitingLine => 4,
        Stage::Acquiring => if s.state.commands.len() > 0 {
            1
        } else if s.state.inputs.len() > 0 {
            2
        } else {
            5
        },
    }
}

/// The rest of the current cycle, from a session at `s`, a source holding
/// `lines` and a sink holding `w`: the cycle of the loop's acquisition and
/// execution step, run to its end.
pub open spec fn rest(s: SessionView, lines: Seq<Seq<char>>, w: Seq<Seq<char>>) -> Outcome
    decreases lines.len(), rank(s),
{
    let g = s.state;
    match s.stage {
        Stage::Idle => Outcome { state: g, lines, written: w },
        Stage::Closing => Outcome { state: g, lines, written: w },
        Stage::AwaitingLine => {
            if lines.len() == 0 {
                Outcome { state: GameStateView { terminated: true, ..g }, lines, written: w }
            } else {
                rest(
                    at(
                        GameStateView { inputs: g.inputs + batch_of(lines[0]), ..g },
                        Stage::Acquiring,
                    ),
                    lines.drop_first(),
                    w,
                )
            }
        },
        Stage::Acquiring => {
            if g.commands.len() > 0 {
                let c = g.commands[0];
                let after = c.apply(GameStateView { commands: g.commands.drop_first(), ..g });
                match c.outcome() {
                    Ok(_) => Outcome { state: after, lines, written: w },
                    Err(e) => Outcome {
                        state: after.cleared(),
                        lines,
                        written: emit_line(w, error_line(e)),
                    },
                }
            } else if g.inputs.len() > 0 {
                let line = g.inputs[0];
                let remaining = GameStateView { inputs: g.inputs.drop_first(), ..g };
                if recognized(trim(line)) {
                    let c = choose|c: Command| denotes(trim(line), c);
                    rest(
                        at(GameStateView { commands: seq![c], ..remaining }, Stage::Acquiring),
                        lines,
                        w,
                    )
                } else {
                    Outcome {
                        state: remaining.cleared(),
                        lines,
                        written: emit_line(w, apology(line)),
                    }
                }
            } else {
                rest(at(g, Stage::AwaitingLine), lines, w.push(prompt_text()))
            }
        },
    }
}

/// One whole cycle from a session between cycles: the scene line, then the
/// rest of the cycle.
pub open spec fn cycle(g: GameStateView, lines: Seq<Seq<char>>, w: Seq<Seq<char>>) -> Outcome {
    rest(at(g, Stage::Acquiring), lines, emit_line(w, scene_text()))
}

/// The measure that every cycle of a live session lowers: the source lines
/// left, the inputs queued, the commands queued, and whether the session is
/// still live.
pub open spec fn measure(g: GameStateView, lines: Seq<Seq<char>>) -> (int, int, int, int) {
    (lines.len() as int, g.inputs.len() as int, g.commands.len() as int, if g.terminated {
        0
    } else {
        1
    })
}

/// Whether `a` comes strictly before `b` in lexicographic order.
pub open spec fn lex_below(a: (int, int, int, int), b: (int, int, int, int)) -> bool {
    ||| a.0 < b.0
    ||| a.0 == b.0 && a.1 < b.1
    ||| a.0 == b.0 && a.1 == b.1 && a.2 < b.2
    ||| a.0 == b.0 && a.1 == b.1 && a.2 == b.2 && a.3 < b.3
}

/// A whole session from a game state between cycles, a source holding
/// `lines` and a sink holding `w`: cycles run while the session is live.
pub open spec fn play(g: GameStateView, lines: Seq<Seq<char>>, w: Seq<Seq<char>>) -> Outcome
    decreases
        lines.len(),
        g.inputs.len(),
        g.commands.len(),
        if g.terminated {
            0int
        } else {
            1int
        },
{
    if g.terminated {
        Outcome { state: g, lines, written: w }
    } else {
        let o = cycle(g, lines, w);
        proof {
            lemma_rest_lowers(at(g, Stage::Acquiring), lines, emit_line(w, scene_text()));
        }
        play(o.state, o.lines, o.written)
    }
}

/// Two commands that a token denotes behave alike.
pub proof fn lemma_denoted_alike(t: Seq<char>, c1: Command, c2: Command, g: GameStateView)
    requires
        denotes(t, c1),
        denotes(t, c2),
    ensures
        c1.apply(g) == c2.apply(g),
        c1.outcome() is Ok <==> c2.outcome() is Ok,
        c1.outcome() matches Err(e1) ==> c2.outcome() matches Err(e2) && error_line(e1)
            == error_line(e2),
{
}

/// The rest of a cycle does not depend on which of the commands that a
/// token denotes is queued.
pub proof fn lemma_rest_alike(
    t: Seq<char>,
    c1: Command,
    c2: Command,
    g: GameStateView,
    lines: Seq<Seq<char>>,
    w: Seq<Seq<char>>,
)
    requires
        denotes(t, c1),
        denotes(t, c2),
    ensures
        rest(at(GameStateView { commands: seq![c1], ..g }, Stage::Acquiring), lines, w) == rest(
            at(GameStateView { commands: seq![c2], ..g }, Stage::Acquiring),
            lines,
            w,
        ),
{
    let g1 = GameStateView { commands: seq![c1], ..g };
    let g2 = GameStateView { commands: seq![c2], ..g };
    lemma_denoted_alike(t, c1, c2, GameStateView { commands: g1.commands.drop_first(), ..g1 });
    assert(g1.commands.drop_first() =~= g2.commands.drop_first());
}

/// The rest of a cycle never reads more lines than the source holds, and
/// when it reads none it lowers the rest of the measure.
pub proof fn lemma_rest_lowers(s: SessionView, lines: Seq<Seq<char>>, w: Seq<Seq<char>>)
    requires
        s.stage == Stage::Acquiring || s.stage == Stage::AwaitingLine,
        !s.state.terminated,
    ensures
        lex_below(
            measure(rest(s, lines, w).state, rest(s, lines, w).lines),
            measure(s.state, lines),
        ),
    decreases lines.len(), rank(s),
{
    let g = s.state;
    match s.stage {
        Stage::AwaitingLine => {
            if lines.len() > 0 {
                let next = at(
                    GameStateView { inputs: g.inputs + batch_of(lines[0]), ..g },
                    Stage::Acquiring,
                );
                lemma_rest_lowers(next, lines.drop_first(), w);
            }
        },
        Stage::Acquiring => {
            if g.commands.len() > 0 {
            } else if g.inputs.len() > 0 {
                let line = g.inputs[0];
                if recognized(trim(line)) {
                    let c = choose|c: Command| denotes(trim(line), c);
                    let remaining = GameStateView { inputs: g.inputs.drop_first(), ..g };
                    lemma_rest_lowers(
                        at(GameStateView { commands: seq![c], ..remaining }, Stage::Acquiring),
                        lines,
                        w,
                    );
                }
            } else {
                lemma_rest_lowers(at(g, Stage::AwaitingLine), lines, w.push(prompt_text()));
            }
        },
        _ => {},
    }
}

/// Once the session is over it stays over: no part of a cycle resets the
/// termination flag.
pub proof fn lemma_terminated_stays(s: SessionView, lines: Seq<Seq<char>>, w: Seq<Seq<char>>)
    requires
        s.state.terminated,
    ensures
        rest(s, lines, w).state.terminated,
    decreases lines.len(), rank(s),
{
    let g = s.state;
    match s.stage {
        Stage::AwaitingLine => {
            if lines.len() > 0 {
                lemma_terminated_stays(
                    at(GameStateView { inputs: g.inputs + batch_of(lines[0]), ..g }, Stage::Acquiring),
                    lines.drop_first(),
                    w,
                );
            }
        },
        Stage::Acquiring => {
            if g.commands.len() == 0 && g.inputs.len() > 0 {
                let line = g.inputs[0];
                if recognized(trim(line)) {
                    let c = choose|c: Command| denotes(trim(line), c);
                    let remaining = GameStateView { inputs: g.inputs.drop_first(), ..g };
                    lemma_terminated_stays(
                        at(GameStateView { commands: seq![c], ..remaining }, Stage::Acquiring),
                        lines,
                        w,
                    );
                }
            } else if g.commands.len() == 0 {
                lemma_terminated_stays(at(g, Stage::AwaitingLine), lines, w.push(prompt_text()));
            }
        },
        _ => {},
    }
}

/// With `quit` as the only queued command, the cycle sets the termination
/// flag and changes nothing else: nothing is written, no line is read, and
/// both queues end empty.
pub proof fn lemma_quit_terminates(g: GameStateView, lines: Seq<Seq<char>>, w: Seq<Seq<char>>)
    requires
        !g.terminated,
        g.commands == seq![Command::Quit(QuitCommand)],
        g.inputs.len() == 0,
    ensures
        rest(at(g, Stage::Acquiring), lines, w) == (Outcome {
            state: GameStateView { terminated: true, ..GameStateView::initial() },
            lines,
            written: w,
        }),
{
    assert(g.commands.drop_first() =~= Seq::<Command>::empty());
    assert(g.inputs =~= Seq::<Seq<char>>::empty());
}

/// End-of-stream with both queues empty ends the session: after the
/// prompt, nothing more is written, so no apology or error line.
pub proof fn lemma_end_of_stream(g: GameStateView, w: Seq<Seq<char>>)
    requires
        g.commands.len() == 0,
        g.inputs.len() == 0,
    ensures
        rest(at(g, Stage::Acquiring), Seq::empty(), w) == (Outcome {
            state: GameStateView { terminated: true, ..g },
            lines: Seq::empty(),
            written: w.push(prompt_text()),
        }),
{
    assert(rest(at(g, Stage::Acquiring), Seq::empty(), w) == rest(
        at(g, Stage::AwaitingLine),
        Seq::empty(),
        w.push(prompt_text()),
    ));
}

/// A line that is not a command, when it is the only pending input, gives
/// exactly one apology line naming it, and both queues end empty.
pub proof fn lemma_invalid_input(g: GameStateView, lines: Seq<Seq<char>>, w: Seq<Seq<char>>)
    requires
        g.commands.len() == 0,
        g.inputs.len() == 1,
        !recognized(trim(g.inputs[0])),
    ensures
        rest(at(g, Stage::Acquiring), lines, w) == (Outcome {
            state: g.cleared(),
            lines,
            written: emit_line(w, apology(g.inputs[0])),
        }),
{
}

/// A command that fails gives exactly one line, `"Error: "` then the
/// failure's message, and both queues end empty.
pub proof fn lemma_failed_command(
    g: GameStateView,
    lines: Seq<Seq<char>>,
    w: Seq<Seq<char>>,
    e: CommandError,
)
    requires
        g.commands.len() > 0,
        g.commands[0].outcome() == Err::<(), CommandError>(e),
    ensures
        rest(at(g, Stage::Acquiring), lines, w) == (Outcome {
            state: g.cleared(),
            lines,
            written: emit_line(w, "Error: "@ + e.text()),
        }),
{
    let c = g.commands[0];
    let after = c.apply(GameStateView { commands: g.commands.drop_first(), ..g });
    assert(after.cleared() == g.cleared());
}

/// A source line whose first piece is not a command discards its whole
/// batch, later pieces included: the cycle ends with both queues empty and
/// the session exactly as live as before.
pub proof fn lemma_bad_batch_discarded(
    g: GameStateView,
    line: Seq<char>,
    more: Seq<Seq<char>>,
    w: Seq<Seq<char>>,
)
    requires
        g.commands.len() == 0,
        g.inputs.len() == 0,
        !recognized(trim(batch_of(line)[0])),
    ensures
        ({
            let o = rest(at(g, Stage::Acquiring), seq![line] + more, w);
            &&& o.state == g.cleared()
            &&& o.lines == more
            &&& o.written == emit_line(w.push(prompt_text()), apology(batch_of(line)[0]))
        }),
{
    let lines = seq![line] + more;
    assert(lines[0] == line);
    assert(lines.drop_first() =~= more);
    crate::text::lemma_pieces_not_empty(trim(line));
    let g1 = GameStateView { inputs: g.inputs + batch_of(line), ..g };
    let w1 = w.push(prompt_text());
    assert(g1.inputs[0] == batch_of(line)[0]);
    assert(g1.cleared() == g.cleared());
    assert(rest(at(g, Stage::Acquiring), lines, w) == rest(at(g, Stage::AwaitingLine), lines, w1));
    assert(rest(at(g, Stage::AwaitingLine), lines, w1) == rest(
        at(g1, Stage::Acquiring),
        more,
        w1,
    ));
}

/// The game loop: it owns the turn machine, a scripted source and a
/// capturing sink, and drives the read-parse-execute-report cycle until the
/// session ends.
#[derive(Debug)]
pub struct GameLoop {
    session: Session,
    input: InputReader,
    output: OutputWriter,
}

impl GameLoop {
    /// The loop is between cycles and its source is well formed.
    pub closed spec fn wf(self) -> bool {
        self.session@.stage == Stage::Idle && self.input.wf()
    }

    /// The game state.
    pub closed spec fn state_view(self) -> GameStateView {
        self.session@.state
    }

    /// The source lines not read yet.
    pub closed spec fn lines(self) -> Seq<Seq<char>> {
        self.input.remaining()
    }

    /// The pieces written to the sink so far.
    pub closed spec fn written(self) -> Seq<Seq<char>> {
        self.output.written()
    }

    /// Create a loop over the given state, source, sink and parser.
    pub fn new(state: GameState, input: MockReader, output: MockWriter, parser: Parser) -> (r:
        GameLoop)
        requires
            input.wf(),
        ensures
            r.wf(),
            r.state_view() == state@,
            r.lines() == input.remaining(),
            r.written() == output.written(),
    {
        GameLoop { session: Session::new(state, parser), input, output }
    }

    /// The game state.
    pub fn state(&self) -> (r: &GameState)
        ensures
            r@ == self.state_view(),
    {
        self.session.state()
    }

    /// The game state, to change through its own operations.
    pub fn state_mut(&mut self) -> (r: &mut GameState)
        requires
            old(self).wf(),
        ensures
            r@ == old(self).state_view(),
            final(self).wf(),
            final(self).state_view() == final(r)@,
            final(self).lines() == old(self).lines(),
            final(self).written() == old(self).written(),
    {
        self.session.state_mut()
    }

    /// The captured output: each piece written, in order.
    pub fn output(&self) -> (r: Vec<String>)
        ensures
            crate::text::views(r@) == self.written(),
    {
        self.output.output()
    }

    /// Whether the loop should stop.
    pub fn is_finished(&self) -> (r: bool)
        ensures
            r == self.state_view().terminated,
    {
        self.session.is_finished()
    }

    /// Prepare the game world; there is nothing to prepare yet.
    pub fn setup(&mut self) -> (r: Result<(), GameError>)
        ensures
            r is Ok,
            *final(self) == *old(self),
    {
        Ok(())
    }

    /// Update the world between cycles; nothing changes on its own yet.
    pub fn update(&mut self) -> (r: Result<(), GameError>)
        ensures
            r is Ok,
            *final(self) == *old(self),
    {
        Ok(())
    }

    /// Clean up before the loop exits; there is nothing to clean up yet.
    pub fn teardown(&mut self) -> (r: Result<(), GameError>)
        ensures
            r is Ok,
            *final(self) == *old(self),
    {
        Ok(())
    }

    /// Report the scene: write the scene line.
    pub fn process_output(&mut self) -> (r: Result<(), GameError>)
        requires
            old(self).wf(),
        ensures
            r is Ok,
            final(self).wf(),
            final(self).state_view() == old(self).state_view(),
            final(self).lines() == old(self).lines(),
            final(self).written() == emit_line(old(self).written(), scene_text()),
    {
        let line = scene();
        match self.output.writeln(line.as_str()) {
            Ok(()) => Ok(()),
            Err(e) => Err(GameError::OutputError(e)),
        }
    }

    /// Acquire a command and execute it (see [`rest`]): drain queued
    /// commands first, then queued inputs, and only then prompt and read a
    /// line, which is cut into a batch of inputs. A parse or execution
    /// failure is reported and discards both queues; end-of-stream ends the
    /// session.
    pub fn process_input(&mut self) -> (r: Result<(), GameError>)
        requires
            old(self).wf(),
        ensures
            r is Ok,
            final(self).wf(),
            ({
                let o = rest(
                    at(old(self).state_view(), Stage::Acquiring),
                    old(self).lines(),
                    old(self).written(),
                );
                &&& final(self).state_view() == o.state
                &&& final(self).lines() == o.lines
                &&& final(self).written() == o.written
            }),
    {
        let ghost o = rest(
            at(self.session@.state, Stage::Acquiring),
            self.input.remaining(),
            self.output.written(),
        );
        self.session.begin();
        loop
            invariant
                self.input.wf(),
                self.session@.stage != Stage::AwaitingLine,
                rest(self.session@, self.input.remaining(), self.output.written()) == o,
                o == rest(
                    at(old(self).state_view(), Stage::Acquiring),
                    old(self).lines(),
                    old(self).written(),
                ),
            decreases self.input.remaining().len(), rank(self.session@),
        {
            let ghost pre = self.session@;
            let ghost old_lines = self.input.remaining();
            let ghost old_written = self.output.written();
            let step = self.session.step();
            match step {
                Step::Say(line) => {
                    if let Err(e) = self.output.writeln(line.as_str()) {
                        return Err(GameError::OutputError(e));
                    }
                },
                Step::Prompt => {
                    if let Err(e) = self.output.prompt() {
                        return Err(GameError::OutputError(e));
                    }
                    let batch = match self.input.read_inputs() {
                        Ok(b) => b,
                        Err(e) => {
                            return Err(GameError::InputError(e));
                        },
                    };
                    proof {
                        let g = pre.state;
                        let lines = old_lines;
                        assert(rest(pre, lines, old_written) == rest(
                            at(g, Stage::AwaitingLine),
                            lines,
                            old_written.push(prompt_text()),
                        ));
                    }
                    self.session.supply(batch);
                },
                Step::Continue => {
                    proof {
                        let g = pre.state;
                        let line = g.inputs[0];
                        let t = trim(line);
                        let actual = self.session@.state.commands[0];
                        let remaining = GameStateView { inputs: g.inputs.drop_first(), ..g };
                        let chosen = choose|c: Command| denotes(t, c);
                        assert(denotes(t, actual));
                        assert(self.session@ == at(
                            GameStateView { commands: seq![actual], ..remaining },
                            Stage::Acquiring,
                        )) by {
                            assert(self.session@.state.commands =~= seq![actual]);
                        }
                        lemma_rest_alike(
                            t,
                            actual,
                            chosen,
                            remaining,
                            self.input.remaining(),
                            self.output.written(),
                        );
                    }
                },
                Step::Done => {
                    return Ok(());
                },
            }
        }
    }

    /// Run cycles until the session ends (see [`play`]): report the scene,
    /// acquire and execute a command, update the world.
    pub fn run_inner(&mut self) -> (r: Result<(), GameError>)
        requires
            old(self).wf(),
        ensures
            r is Ok,
            final(self).wf(),
            ({
                let o = play(old(self).state_view(), old(self).lines(), old(self).written());
                &&& final(self).state_view() == o.state
                &&& final(self).lines() == o.lines
                &&& final(self).written() == o.written
            }),
    {
        while !self.is_finished()
            invariant
                self.wf(),
                play(self.state_view(), self.lines(), self.written()) == play(
                    old(self).state_view(),
                    old(self).lines(),
                    old(self).written(),
                ),
            decreases
                self.lines().len(),
                self.state_view().inputs.len(),
                self.state_view().commands.len(),
                if self.state_view().terminated {
                    0int
                } else {
                    1int
                },
        {
            proof {
                lemma_rest_lowers(
                    at(self.state_view(), Stage::Acquiring),
                    self.lines(),
                    emit_line(self.written(), scene_text()),
                );
            }
            self.process_output()?;
            self.process_input()?;
            self.update()?;
        }
        Ok(())
    }

    /// Run the game (see [`play`]): set up, run cycles until the session
    /// ends, tear down.
    pub fn run(&mut self) -> (r: Result<(), GameError>)
        requires
            old(self).wf(),
        ensures
            r is Ok,
            final(self).wf(),
            ({
                let o = play(old(self).state_view(), old(self).lines(), old(self).written());
                &&& final(self).state_view() == o.state
                &&& final(self).lines() == o.lines
                &&& final(self).written() == o.written
            }),
    {
        self.setup()?;
        self.run_inner()?;
        self.teardown()?;
        Ok(())
    }
}

} // verus!
