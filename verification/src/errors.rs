use vstd::prelude::*;
use vstd::string::StringExecFns;

verus! {

/// What went wrong, by class.
#[derive(Clone, Copy, Debug, PartialEq, Eq, Structural)]
pub enum ErrorKind {
    /// The bus or the service on it could not be reached.
    RemoteUnavailable,
    /// No reply arrived within the time bound.
    Timeout,
    /// The daemon knows no such property or interface.
    NoSuchProperty,
    /// The daemon knows no such method.
    NoSuchMethod,
    /// A value did not have the expected shape.
    TypeMismatch,
    /// A lookup that needs at least one result found none.
    NotFound,
    /// The daemon declined the request.
    RemoteRejected,
}

/// A failure: its class and a message for the reader.
#[derive(Debug, PartialEq)]
pub struct Error {
    pub kind: ErrorKind,
    pub message: String,
}

/// The content of an [`Error`].
pub struct ErrorView {
    pub kind: ErrorKind,
    pub message: Seq<char>,
}

impl View for Error {
    type V = ErrorView;

    open spec fn view(&self) -> ErrorView {
        ErrorView { kind: self.kind, message: self.message@ }
    }
}

impl DeepView for Error {
    type V = ErrorView;

    open spec fn deep_view(&self) -> ErrorView {
        self@
    }
}

/// The error of the given class and message.
pub open spec fn failure(kind: ErrorKind, message: Seq<char>) -> ErrorView {
    ErrorView { kind, message }
}

/// The content of a result: that of the value, or that of the error.
pub open spec fn content_of<T: DeepView>(r: Result<T, Error>) -> Result<T::V, ErrorView> {
    match r {
        Ok(t) => Ok(t.deep_view()),
        Err(e) => Err(e@),
    }
}

impl Error {
    pub fn new(kind: ErrorKind, message: &str) -> (e: Error)
        ensures
            e@ == failure(kind, message@),
    {
        Error { kind, message: String::from_str(message) }
    }

    pub fn kind(&self) -> (k: ErrorKind)
        ensures
            k == self@.kind,
    {
        self.kind
    }

    pub fn message(&self) -> (m: &str)
        ensures
            m@ == self@.message,
    {
        self.message.as_str()
    }
}

} // verus!
