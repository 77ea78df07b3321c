use crate::io::{invalid_data, text_of_bytes};
use crate::text::views;
use vstd::prelude::*;
use vstd::string::StringSliceAdditionalSpecFns;

verus! {

/// What a sink holds after `text` is written to one that held `pieces`: an
/// empty write leaves no trace.
pub open spec fn emit(pieces: Seq<Seq<char>>, text: Seq<char>) -> Seq<Seq<char>> {
    if text.len() == 0 {
        pieces
    } else {
        pieces.push(text)
    }
}

/// An in-memory sink for tests: it keeps each piece of text written to it,
/// in order.
#[derive(Debug)]
pub struct OutputMock {
    /// The pieces written so far.
    pub output: Vec<String>,
}

impl OutputMock {
    /// Create an empty sink.
    pub fn new() -> (r: OutputMock)
        ensures
            r.output@.len() == 0,
    {
        OutputMock { output: Vec::new() }
    }

    /// Keep `text` as the next piece, unless it is empty.
    pub fn write_str(&mut self, text: &str)
        ensures
            views(final(self).output@) == emit(views(old(self).output@), text@),
    {
        if !text.is_empty() {
            let ghost before = views(self.output@);
            self.output.push(text.to_owned());
            assert(views(self.output@) =~= before.push(text@));
        }
    }

    /// Keep the bytes, read as UTF-8, as the next piece. Bytes that are not
    /// UTF-8 are refused with an `InvalidData` error and nothing is kept.
    pub fn write(&mut self, buf: &[u8]) -> (r: Result<usize, std::io::Error>)
        ensures
            vstd::utf8::valid_utf8(buf@) ==> (r matches Ok(n) && n == buf@.len()) && views(
                final(self).output@,
            ) == views(old(self).output@).push(vstd::utf8::decode_utf8(buf@)),
            !vstd::utf8::valid_utf8(buf@) ==> r is Err && final(self).output@ == old(self).output@,
    {
        match text_of_bytes(buf) {
            Ok(s) => {
                let ghost before = views(self.output@);
                self.output.push(s.to_owned());
                proof {
                    vstd::utf8::encode_utf8_decode_utf8(s@);
                }
                assert(views(self.output@) =~= before.push(s@));
                Ok(buf.len())
            },
            Err(e) => Err(invalid_data(e)),
        }
    }

    /// Flush the sink; there is nothing to do.
    pub fn flush(&mut self) -> (r: Result<(), std::io::Error>)
        ensures
            r is Ok,
            final(self).output@ == old(self).output@,
    {
        Ok(())
    }
}

impl Default for OutputMock {
    fn default() -> (r: OutputMock)
        ensures
            r.output@.len() == 0,
    {
        OutputMock::new()
    }
}

} // verus!
