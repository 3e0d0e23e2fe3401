use vstd::prelude::*;

verus! {

/// Text of the error returned when `/related` is given no query.
pub const USAGE_RELATED: &'static str = "Usage: /related <query>";

/// Text that precedes the name of a command that does not exist.
pub const UNKNOWN_COMMAND_PREFIX: &'static str = "Unknown command: ";

/// Why a slash command produced no output.
pub enum CommandError {
    /// No command of this name exists.
    UnknownCommand(String),
    /// `/related` was run with arguments that join to an empty query.
    EmptyQuery,
}

impl CommandError {
    /// The message shown to the user for this error.
    pub open spec fn message_view(&self) -> Seq<char> {
        match self {
            CommandError::UnknownCommand(name) => UNKNOWN_COMMAND_PREFIX@ + name@,
            CommandError::EmptyQuery => USAGE_RELATED@,
        }
    }

    /// Returns the message shown to the user for this error.
    pub fn message(&self) -> (r: String)
        ensures
            r@ == self.message_view(),
    {
        match self {
            CommandError::UnknownCommand(name) => {
                let mut msg = String::from_str(UNKNOWN_COMMAND_PREFIX);
                msg.append(name.as_str());
                msg
            },
            CommandError::EmptyQuery => String::from_str(USAGE_RELATED),
        }
    }
}

} // verus!
