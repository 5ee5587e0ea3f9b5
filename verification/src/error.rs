use vstd::prelude::*;

verus! {

/// The stage at which an operation gave up.
#[derive(Clone, Copy, Debug, PartialEq, Eq, Structural)]
pub enum ErrorKind {
    /// The caller's input was missing or unusable; no process was started.
    Validation,
    /// The tool could not be started at all.
    Execution,
    /// The tool ran and ended with a failure status.
    Tool,
    /// The tool ended well but its output was not the expected document.
    Parse,
    /// The surroundings did not tell where downloads go.
    Configuration,
}

/// A failure, with the text that is shown to the person at the screen.
#[derive(Clone, Debug, PartialEq, Eq)]
pub struct CommandError {
    pub kind: ErrorKind,
    pub message: String,
}

/// The mathematical value of a [`CommandError`].
pub struct ErrorModel {
    pub kind: ErrorKind,
    pub message: Seq<char>,
}

impl View for CommandError {
    type V = ErrorModel;

    open spec fn view(&self) -> ErrorModel {
        ErrorModel { kind: self.kind, message: self.message@ }
    }
}

impl CommandError {
    /// An error of the given kind that carries `message`.
    pub fn new(kind: ErrorKind, message: String) -> (e: CommandError)
        ensures
            e@ == (ErrorModel { kind, message: message@ }),
    {
        CommandError { kind, message }
    }

    /// The stage at which the operation gave up.
    pub fn kind(&self) -> (k: ErrorKind)
        ensures
            k == self@.kind,
    {
        self.kind
    }

    /// The text of the failure.
    pub fn message(&self) -> (m: &str)
        ensures
            m@ == self@.message,
    {
        self.message.as_str()
    }
}

} // verus!
