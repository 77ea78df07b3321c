use vstd::prelude::*;

verus! {

/// An error that can occur when executing a command.
///
/// Unexpected errors signal a bug; in-character errors are narratively valid
/// failures (a lock resists); out-of-character errors are meta-level failures
/// ("you can't do that here"). All three carry a message for the player.
#[derive(Clone, Debug, PartialEq)]
pub enum CommandError {
    /// An unexpected error occurred; this is normally a bug.
    Unexpected(String),
    /// An in-character error occurred.
    InCharacter(String),
    /// An out-of-character error occurred.
    OutOfCharacter(String),
}

/// The text that introduces an unexpected error's message.
pub open spec fn unexpected_prefix() -> Seq<char> {
    "An unexpected error occurred: "@
}

impl CommandError {
    /// The message that the error carries.
    pub open spec fn detail(self) -> Seq<char> {
        match self {
            CommandError::Unexpected(m) => m@,
            CommandError::InCharacter(m) => m@,
            CommandError::OutOfCharacter(m) => m@,
        }
    }

    /// The text shown to the player for this error.
    pub open spec fn text(self) -> Seq<char> {
        match self {
            CommandError::Unexpected(m) => unexpected_prefix() + m@,
            CommandError::InCharacter(m) => m@,
            CommandError::OutOfCharacter(m) => m@,
        }
    }

    /// The text shown to the player for this error.
    pub fn message(&self) -> (r: String)
        ensures
            r@ == self.text(),
    {
        match self {
            CommandError::Unexpected(m) => {
                let mut s = String::from_str("An unexpected error occurred: ");
                s.append(m.as_str());
                s
            },
            CommandError::InCharacter(m) => m.clone(),
            CommandError::OutOfCharacter(m) => m.clone(),
        }
    }

    /// A copy of this error, equal to it.
    pub fn duplicate(&self) -> (r: CommandError)
        ensures
            r == *self,
    {
        match self {
            CommandError::Unexpected(m) => CommandError::Unexpected(m.clone()),
            CommandError::InCharacter(m) => CommandError::InCharacter(m.clone()),
            CommandError::OutOfCharacter(m) => CommandError::OutOfCharacter(m.clone()),
        }
    }
}

} // verus!
