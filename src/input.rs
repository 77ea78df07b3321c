/// The error type of the input side.
pub mod error;
/// A scripted, in-memory line source.
pub mod mock;
/// A reader that turns the source's lines into player input.
pub mod reader;

pub use error::InputError;
pub use mock::InputMock;
pub use reader::{InputReader, MockReader};
