use crate::output::error::OutputError;
use crate::output::mock::{emit, OutputMock};
use crate::text::views;
use vstd::prelude::*;

verus! {

/// The text that asks the player for input.
pub open spec fn prompt_text() -> Seq<char> {
    "> "@
}

/// The text that ends a line.
pub open spec fn line_end() -> Seq<char> {
    "\n"@
}

/// What a sink holds after `text` is written to one that held `pieces` as a
/// whole line: the text, then the line end.
pub open spec fn emit_line(pieces: Seq<Seq<char>>, text: Seq<char>) -> Seq<Seq<char>> {
    emit(emit(pieces, text), line_end())
}

/// A writer of player-facing text over an in-memory sink.
#[derive(Debug)]
pub struct OutputWriter {
    writer: OutputMock,
}

/// The writer over an in-memory sink.
pub type MockWriter = OutputWriter;

impl OutputWriter {
    /// The pieces of text written so far, in order.
    pub closed spec fn written(self) -> Seq<Seq<char>> {
        views(self.writer.output@)
    }

    /// Create a writer over the given sink.
    pub fn new(writer: OutputMock) -> (r: OutputWriter)
        ensures
            r.written() == views(writer.output@),
    {
        OutputWriter { writer }
    }

    /// Write `output` as a line.
    pub fn writeln(&mut self, output: &str) -> (r: Result<(), OutputError>)
        ensures
            r is Ok,
            final(self).written() == emit_line(old(self).written(), output@),
    {
        self.writer.write_str(output);
        self.writer.write_str("\n");
        Ok(())
    }

    /// Write `output`, with no line end.
    pub fn write(&mut self, output: &str) -> (r: Result<(), OutputError>)
        ensures
            r is Ok,
            final(self).written() == emit(old(self).written(), output@),
    {
        self.writer.write_str(output);
        Ok(())
    }

    /// Flush the sink.
    pub fn flush(&mut self) -> (r: Result<(), OutputError>)
        ensures
            r is Ok,
            final(self).written() == old(self).written(),
    {
        match self.writer.flush() {
            Ok(()) => Ok(()),
            Err(e) => Err(OutputError::IoError(e)),
        }
    }

    /// Prompt the player for input: write `"> "` and flush.
    pub fn prompt(&mut self) -> (r: Result<(), OutputError>)
        ensures
            r is Ok,
            final(self).written() == old(self).written().push(prompt_text()),
    {
        proof {
            reveal_strlit("> ");
        }
        self.write("> ")?;
        self.flush()?;
        Ok(())
    }

    /// A copy of the pieces written so far.
    pub fn output(&self) -> (r: Vec<String>)
        ensures
            views(r@) == self.written(),
    {
        let mut r: Vec<String> = Vec::new();
        let mut i: usize = 0;
        while i < self.writer.output.len()
            invariant
                0 <= i <= self.writer.output@.len(),
                views(r@) == views(self.writer.output@).subrange(0, i as int),
            decreases self.writer.output@.len() - i,
        {
            let ghost before = views(r@);
            r.push(self.writer.output[i].clone());
            assert(views(r@) =~= before.push(self.writer.output@[i as int]@));
            assert(views(self.writer.output@).subrange(0, i + 1) =~= views(
                self.writer.output@,
            ).subrange(0, i as int).push(self.writer.output@[i as int]@));
            i = i + 1;
        }
        assert(views(self.writer.output@).subrange(0, i as int) =~= views(self.writer.output@));
        r
    }
}

impl Default for OutputWriter {
    fn default() -> (r: OutputWriter)
        ensures
            r.written().len() == 0,
    {
        OutputWriter { writer: OutputMock::new() }
    }
}

} // verus!
