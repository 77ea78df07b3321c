/// The command that ends the session.
pub mod quit;
/// The command that always succeeds.
pub mod succeed;
/// The command that always fails with its carried error.
pub mod throw_error;
