use crate::input::error::InputError;
use crate::input::mock::InputMock;
use crate::text::{pieces, split_pieces, trim, trimmed, views};
use vstd::prelude::*;

verus! {

/// The batch that a raw source line stands for: the line trimmed, then cut
/// at each `;` into independent inputs, left to right.
pub open spec fn batch_of(line: Seq<char>) -> Seq<Seq<char>> {
    pieces(trim(line))
}

/// Cut a raw source line into its batch of inputs (see [`batch_of`]).
pub fn split_line(line: &str) -> (r: Vec<String>)
    ensures
        r@.len() >= 1,
        views(r@) == batch_of(line@),
{
    let t = trimmed(line);
    split_pieces(t.as_str())
}

/// A reader of player input over a scripted source.
#[derive(Debug)]
pub struct InputReader {
    reader: InputMock,
}

/// The reader over a scripted source.
pub type MockReader = InputReader;

impl InputReader {
    /// The reader's source is well formed.
    pub closed spec fn wf(self) -> bool {
        self.reader.wf()
    }

    /// The raw lines not read yet.
    pub closed spec fn remaining(self) -> Seq<Seq<char>> {
        self.reader.remaining()
    }

    /// Create a reader over the given source.
    pub fn new(reader: InputMock) -> (r: InputReader)
        requires
            reader.wf(),
        ensures
            r.wf(),
            r.remaining() == reader.remaining(),
    {
        InputReader { reader }
    }

    /// Read the next line, trimmed; `None` at end-of-stream.
    pub fn read(&mut self) -> (r: Result<Option<String>, InputError>)
        requires
            old(self).wf(),
        ensures
            final(self).wf(),
            old(self).remaining().len() == 0 ==> (r matches Ok(None) && final(self).remaining()
                == old(self).remaining()),
            old(self).remaining().len() > 0 ==> (r matches Ok(Some(s)) && s@ == trim(
                old(self).remaining()[0],
            ) && final(self).remaining() == old(self).remaining().drop_first()),
    {
        match self.reader.next_line() {
            Some(line) => Ok(Some(trimmed(line.as_str()))),
            None => Ok(None),
        }
    }

    /// Read the next line as a batch of inputs: trimmed, then cut at each
    /// `;`. `None` at end-of-stream.
    pub fn read_inputs(&mut self) -> (r: Result<Option<Vec<String>>, InputError>)
        requires
            old(self).wf(),
        ensures
            final(self).wf(),
            old(self).remaining().len() == 0 ==> (r matches Ok(None) && final(self).remaining()
                == old(self).remaining()),
            old(self).remaining().len() > 0 ==> (r matches Ok(Some(v)) && views(v@) == batch_of(
                old(self).remaining()[0],
            ) && v@.len() >= 1 && final(self).remaining() == old(self).remaining().drop_first()),
    {
        match self.reader.next_line() {
            Some(line) => Ok(Some(split_line(line.as_str()))),
            None => Ok(None),
        }
    }
}

impl Default for InputReader {
    fn default() -> (r: InputReader)
        ensures
            r.wf(),
            r.remaining().len() == 0,
    {
        InputReader { reader: InputMock::default() }
    }
}

} // verus!
