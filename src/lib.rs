//! The interactive command loop of a text-adventure engine: player text is
//! split into batches, parsed into commands, executed against the game state,
//! and the results are reported back one line at a time.
/// Commands and the errors they can fail with.
pub mod command;
/// Player input: the scripted source and the reader over it.
pub mod input;
/// Player-facing output: the capturing sink and the writer over it.
pub mod output;
/// std's I/O types as the library carries them.
pub mod io;
/// The command parser.
pub mod parser;
/// Text handling shared by the parser and the input side.
pub mod text;
/// The game state, the turn machine and the game loop.
pub mod game;
