/// The error type of the output side.
pub mod error;
/// An in-memory sink that captures what is written.
pub mod mock;
/// A writer of player-facing text over a sink.
pub mod writer;

pub use error::OutputError;
pub use mock::OutputMock;
pub use writer::{MockWriter, OutputWriter};
