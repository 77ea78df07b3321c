use crate::input::error::InputError;
use crate::text::{trim, trimmed};
use vstd::prelude::*;

verus! {

/// The newline that ends each line of a [`InputMock`].
pub open spec fn newline() -> Seq<char> {
    seq!['\n']
}

/// The length of `line` in UTF-8 bytes.
pub open spec fn byte_len(line: Seq<char>) -> int {
    vstd::utf8::encode_utf8(line).len() as int
}

/// The UTF-8 encoding of two texts one after the other is the encoding of
/// the first, then that of the second.
pub proof fn lemma_encode_concat(a: Seq<char>, b: Seq<char>)
    ensures
        vstd::utf8::encode_utf8(a + b) == vstd::utf8::encode_utf8(a) + vstd::utf8::encode_utf8(b),
    decreases a.len(),
{
    if a.len() > 0 {
        assert((a + b).drop_first() =~= a.drop_first() + b);
        assert((a + b)[0] == a[0]);
        lemma_encode_concat(a.drop_first(), b);
        assert(vstd::utf8::encode_utf8(a + b) =~= vstd::utf8::encode_utf8(a) + vstd::utf8::encode_utf8(b));
    } else {
        assert(a + b =~= b);
        assert(vstd::utf8::encode_utf8(a) =~= Seq::<u8>::empty());
        assert(vstd::utf8::encode_utf8(a) + vstd::utf8::encode_utf8(b) =~= vstd::utf8::encode_utf8(b));
    }
}

/// A scripted input source for tests: a fixed series of lines, read one at a
/// time as if a player had typed them, then end-of-stream.
#[derive(Debug)]
pub struct InputMock {
    lines: Vec<String>,
    current_line: usize,
}

impl InputMock {
    /// The position is within the script, and every line ends with a
    /// newline.
    pub closed spec fn wf(self) -> bool {
        &&& self.current_line <= self.lines.len()
        &&& forall|i: int|
            0 <= i < self.lines.len() ==> #[trigger] self.lines@[i]@.len() > 0
                && self.lines@[i]@.last() == '\n'
    }

    /// The lines not read yet, each with its newline.
    pub closed spec fn remaining(self) -> Seq<Seq<char>> {
        self.lines@.subrange(self.current_line as int, self.lines.len() as int).map_values(
            |s: String| s@,
        )
    }

    /// Create a source that yields each of `lines`, with a newline added.
    pub fn new(lines: Vec<String>) -> (r: InputMock)
        ensures
            r.wf(),
            r.remaining() == lines@.map_values(|s: String| s@ + newline()),
    {
        let mut out: Vec<String> = Vec::new();
        let mut i: usize = 0;
        while i < lines.len()
            invariant
                0 <= i <= lines.len(),
                out@.len() == i,
                forall|j: int|
                    0 <= j < i ==> #[trigger] out@[j]@ == lines@[j]@ + newline(),
            decreases lines.len() - i,
        {
            let mut line = lines[i].clone();
            line.append("\n");
            proof {
                reveal_strlit("\n");
                assert("\n"@ =~= newline());
            }
            out.push(line);
            i = i + 1;
        }
        let r = InputMock { lines: out, current_line: 0 };
        assert(r.remaining() =~= lines@.map_values(|s: String| s@ + newline()));
        r
    }

    /// Add a line, trimmed and with a newline, to the end of the script.
    pub fn add_line(&mut self, line: String)
        requires
            old(self).wf(),
        ensures
            final(self).wf(),
            final(self).remaining() == old(self).remaining().push(trim(line@) + newline()),
    {
        let mut text = trimmed(line.as_str());
        text.append("\n");
        proof {
            reveal_strlit("\n");
            assert("\n"@ =~= newline());
        }
        self.lines.push(text);
        assert(self.remaining() =~= old(self).remaining().push(trim(line@) + newline()));
    }

    /// Remove and return the next line, whole, if any is left.
    pub fn next_line(&mut self) -> (r: Option<String>)
        requires
            old(self).wf(),
        ensures
            final(self).wf(),
            old(self).remaining().len() == 0 ==> r is None && final(self).remaining() == old(self).remaining(),
            old(self).remaining().len() > 0 ==> r is Some && r->0@ == old(self).remaining()[0]
                && final(self).remaining() == old(self).remaining().drop_first(),
            r matches Some(line) ==> line@.len() > 0 && line@.last() == '\n',
    {
        if self.current_line < self.lines.len() {
            let line = self.lines[self.current_line].clone();
            self.current_line = self.current_line + 1;
            assert(self.remaining() =~= old(self).remaining().drop_first());
            Some(line)
        } else {
            None
        }
    }

    /// Copy the next line's bytes into `buf`, as many as fit, and move on to
    /// the line after it; what does not fit is dropped. Returns the number
    /// of bytes copied, 0 at end-of-stream.
    pub fn read(&mut self, buf: &mut [u8]) -> (r: Result<usize, InputError>)
        requires
            old(self).wf(),
        ensures
            final(self).wf(),
            old(self).remaining().len() == 0 ==> r == Ok::<usize, InputError>(0) && final(self).remaining() == old(self).remaining() && final(buf)@ == old(buf)@,
            old(self).remaining().len() > 0 ==> {
                let bytes = vstd::utf8::encode_utf8(old(self).remaining()[0]);
                let k = if bytes.len() < old(buf)@.len() {
                    bytes.len()
                } else {
                    old(buf)@.len()
                };
                &&& r == Ok::<usize, InputError>(k as usize)
                &&& final(buf)@ == bytes.subrange(0, k as int) + old(buf)@.subrange(
                    k as int,
                    old(buf)@.len() as int,
                )
                &&& final(self).remaining() == old(self).remaining().drop_first()
            },
    {
        if self.current_line >= self.lines.len() {
            return Ok(0);
        }
        let bytes = self.lines[self.current_line].as_str().as_bytes();
        let mut i: usize = 0;
        while i < bytes.len() && i < buf.len()
            invariant
                i <= bytes@.len(),
                i <= old(buf)@.len(),
                buf@.len() == old(buf)@.len(),
                forall|j: int| 0 <= j < i ==> #[trigger] buf@[j] == bytes@[j],
                forall|j: int| i <= j < buf@.len() ==> #[trigger] buf@[j] == old(buf)@[j],
            decreases bytes.len() - i,
        {
            buf[i] = bytes[i];
            i = i + 1;
        }
        let ghost k: int = i as int;
        assert(buf@ =~= bytes@.subrange(0, k) + old(buf)@.subrange(k, old(buf)@.len() as int));
        self.current_line = self.current_line + 1;
        assert(self.remaining() =~= old(self).remaining().drop_first());
        Ok(i)
    }

    /// The next line's bytes, without moving past it; empty at end-of-stream.
    pub fn fill_buf(&self) -> (r: Result<&[u8], InputError>)
        requires
            self.wf(),
        ensures
            self.remaining().len() == 0 ==> (r matches Ok(b) && b@.len() == 0),
            self.remaining().len() > 0 ==> (r matches Ok(b) && b@ == vstd::utf8::encode_utf8(
                self.remaining()[0],
            )),
    {
        if self.current_line >= self.lines.len() {
            let empty: &[u8] = &[];
            proof {
                assert(empty@.len() == 0);
            }
            return Ok(empty);
        }
        Ok(self.lines[self.current_line].as_str().as_bytes())
    }

    /// Mark `amt` bytes of the next line as read: once the whole line is
    /// read, move on to the line after it.
    pub fn consume(&mut self, amt: usize)
        requires
            old(self).wf(),
        ensures
            final(self).wf(),
            old(self).remaining().len() > 0 && amt >= byte_len(old(self).remaining()[0])
                ==> final(self).remaining() == old(self).remaining().drop_first(),
            !(old(self).remaining().len() > 0 && amt >= byte_len(old(self).remaining()[0]))
                ==> final(self).remaining() == old(self).remaining(),
    {
        if self.current_line < self.lines.len() {
            assert(self.remaining()[0] == self.lines@[self.current_line as int]@);
            let len = self.lines[self.current_line].as_str().as_bytes().len();
            if amt >= len {
                self.current_line = self.current_line + 1;
                assert(self.remaining() =~= old(self).remaining().drop_first());
            }
        }
    }

    /// Append the next line, whole, to `buf` and move past it. Returns the
    /// number of bytes appended, 0 at end-of-stream.
    pub fn read_line(&mut self, buf: &mut String) -> (r: Result<usize, InputError>)
        requires
            old(self).wf(),
        ensures
            final(self).wf(),
            old(self).remaining().len() == 0 ==> r == Ok::<usize, InputError>(0) && final(buf)@
                == old(buf)@ && final(self).remaining() == old(self).remaining(),
            old(self).remaining().len() > 0 ==> (r matches Ok(n) && n == byte_len(
                old(self).remaining()[0],
            ) && final(buf)@ == old(buf)@ + old(self).remaining()[0] && final(self).remaining()
                == old(self).remaining().drop_first()),
    {
        match self.next_line() {
            Some(line) => {
                buf.append(line.as_str());
                Ok(line.as_str().as_bytes().len())
            },
            None => Ok(0),
        }
    }

    /// Append every remaining line to `buf`, reaching end-of-stream.
    /// Returns the number of bytes appended.
    pub fn read_to_string(&mut self, buf: &mut String) -> (r: Result<usize, InputError>)
        requires
            old(self).wf(),
        ensures
            final(self).wf(),
            final(buf)@ == old(buf)@ + old(self).remaining().flatten(),
            final(self).remaining().len() == 0,
            byte_len(old(self).remaining().flatten()) <= usize::MAX ==> r == Ok::<usize, InputError>(
                byte_len(old(self).remaining().flatten()) as usize,
            ),
            byte_len(old(self).remaining().flatten()) > usize::MAX ==> r == Ok::<usize, InputError>(
                usize::MAX,
            ),
    {
        let mut total: usize = 0;
        let ghost read: Seq<char> = Seq::empty();
        assert(old(buf)@ + read =~= old(buf)@);
        assert(vstd::utf8::encode_utf8(read) =~= Seq::<u8>::empty());
        loop
            invariant
                self.wf(),
                buf@ == old(buf)@ + read,
                read + self.remaining().flatten() == old(self).remaining().flatten(),
                total as int == if byte_len(read) <= usize::MAX {
                    byte_len(read)
                } else {
                    usize::MAX as int
                },
            decreases self.remaining().len(),
        {
            let ghost before = self.remaining();
            match self.next_line() {
                Some(line) => {
                    proof {
                        before.lemma_flatten_and_flatten_alt_are_equivalent();
                        assert(before =~= seq![before[0]] + before.drop_first());
                        assert(before.flatten() == before[0] + before.drop_first().flatten()) by {
                            before.drop_first().lemma_flatten_and_flatten_alt_are_equivalent();
                        }
                        lemma_encode_concat(read, line@);
                    }
                    buf.append(line.as_str());
                    let n = line.as_str().as_bytes().len();
                    total = if total <= usize::MAX - n {
                        total + n
                    } else {
                        usize::MAX
                    };
                    proof {
                        assert(read + line@ + self.remaining().flatten() =~= read + (line@
                            + self.remaining().flatten()));
                        read = read + line@;
                        assert(buf@ =~= old(buf)@ + read);
                    }
                },
                None => {
                    proof {
                        assert(self.remaining().flatten() =~= Seq::<char>::empty());
                        assert(read + self.remaining().flatten() =~= read);
                    }
                    return Ok(total);
                },
            }
        }
    }
}

impl Default for InputMock {
    fn default() -> (r: InputMock)
        ensures
            r.wf(),
            r.remaining().len() == 0,
    {
        InputMock { lines: Vec::new(), current_line: 0 }
    }
}

} // verus!
