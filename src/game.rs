/// The error that can end a run of the game loop.
pub mod error;
/// The game loop: the turn machine driven over a scripted source and a
/// capturing sink.
pub mod game_loop;
/// The turn machine: the loop's decisions, apart from input and output.
pub mod session;
/// The game state: the termination flag and the two work queues.
pub mod state;
