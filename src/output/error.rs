use vstd::prelude::*;

verus! {

/// A mechanical error of the output side: the sink failed, whatever the
/// text. Such errors are never recovered by the game loop.
#[derive(Debug)]
pub enum OutputError {
    /// An I/O error from the underlying sink.
    IoError(std::io::Error),
}

} // verus!
