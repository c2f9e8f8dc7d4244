use vstd::prelude::*;

verus! {

/// What went wrong, by kind.
#[derive(Debug, Clone, Copy, PartialEq, Eq, Structural)]
pub enum ErrorKind {
    /// The engine process could not be started: no session is possible.
    LaunchFailed,
    /// No reply came before the command's deadline.
    Timeout,
    /// The engine answered with its failure marker.
    Rejected,
    /// The reply does not have the shape that the command calls for.
    Decode,
    /// A move was submitted without both row and column.
    InvalidCoordinate,
    /// A setting (a colour, a board size) could not be read.
    Config,
}

/// An error of this library: its kind and a message for display.
#[derive(Debug)]
pub struct AppError {
    pub kind: ErrorKind,
    pub message: String,
}

impl AppError {
    pub fn new(kind: ErrorKind, message: String) -> (r: AppError)
        ensures
            r.kind == kind,
            r.message@ == message@,
    {
        AppError { kind, message }
    }

    /// The message, as shown to the user.
    pub fn to_string(&self) -> (r: String)
        ensures
            r@ == self.message@,
    {
        self.message.clone()
    }
}

} // verus!
