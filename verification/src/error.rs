//! How a command reports failure: a machine-checkable kind beside the
//! human-readable message that the front end shows.

use vstd::prelude::*;
use vstd::string::StringExecFns;

verus! {

/// Why a command failed.
#[derive(Clone, Copy, Debug, PartialEq, Eq, Structural)]
pub enum ErrorKind {
    /// The dialog was dismissed without a selection.
    UserCancelled,
    /// The dialog returned a URI that names no local path.
    InvalidPath,
    /// The file system refused the write.
    IOFailure,
    /// The dialog went away without ever reporting what the user did.
    NoReply,
}

/// A failed command: its kind, and the message for the user.
#[derive(Clone, Debug, PartialEq, Eq)]
pub struct CommandError {
    pub kind: ErrorKind,
    pub message: String,
}

/// What a `CommandError` stands for in contracts.
pub struct Failure {
    pub kind: ErrorKind,
    pub message: Seq<char>,
}

impl View for CommandError {
    type V = Failure;

    open spec fn view(&self) -> Failure {
        Failure { kind: self.kind, message: self.message@ }
    }
}

impl CommandError {
    /// A failure of the given kind with the given message.
    pub fn new(kind: ErrorKind, message: &str) -> (error: CommandError)
        ensures
            error@ == (Failure { kind, message: message@ }),
    {
        CommandError { kind, message: String::from_str(message) }
    }

    /// The message alone, as the front end receives it.
    pub fn into_message(self) -> (message: String)
        ensures
            message@ == self@.message,
    {
        self.message
    }
}

/// What a command's result stands for in contracts: the text it returns, or
/// the failure it reports.
pub open spec fn reply_view(reply: Result<String, CommandError>) -> Result<Seq<char>, Failure> {
    match reply {
        Ok(text) => Ok(text@),
        Err(error) => Err(error@),
    }
}

/// What the outcome of a write stands for in contracts: nothing on success,
/// the operating system's error text on failure.
pub open spec fn written_view(written: Result<(), String>) -> Result<(), Seq<char>> {
    match written {
        Ok(_) => Ok(()),
        Err(detail) => Err(detail@),
    }
}

} // verus!
