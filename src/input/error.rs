use vstd::prelude::*;

verus! {

/// A mechanical error of the input side: the source failed, whatever the
/// text. Such errors are never recovered by the game loop.
#[derive(Debug)]
pub enum InputError {
    /// An I/O error from the underlying source.
    IoError(std::io::Error),
}

} // verus!
