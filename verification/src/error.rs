//! The error type shared by every module.

use vstd::prelude::*;

verus! {

/// Everything that can go wrong, by kind.
#[derive(Debug)]
pub enum Error {
    /// The caller sent something unusable; one message per rejected argument.
    InvalidArgs { messages: Vec<String> },
    /// The service itself failed.
    Internal { message: String },
    /// The entity asked for does not exist.
    NotFound { message: String },
}

/// The mathematical value of an [`Error`]: every string as its characters.
pub enum ErrorView {
    InvalidArgs { messages: Seq<Seq<char>> },
    Internal { message: Seq<char> },
    NotFound { message: Seq<char> },
}

/// The characters of each string of `messages`, in order.
pub open spec fn texts(messages: Seq<String>) -> Seq<Seq<char>> {
    Seq::new(messages.len(), |i: int| messages[i]@)
}

impl View for Error {
    type V = ErrorView;

    open spec fn view(&self) -> ErrorView {
        match self {
            Error::InvalidArgs { messages } => ErrorView::InvalidArgs { messages: texts(messages@) },
            Error::Internal { message } => ErrorView::Internal { message: message@ },
            Error::NotFound { message } => ErrorView::NotFound { message: message@ },
        }
    }
}

/// The HTTP status that answers a request which ended in this error.
pub open spec fn status_of(e: ErrorView) -> u16 {
    match e {
        ErrorView::InvalidArgs { .. } => 400,
        ErrorView::Internal { .. } => 500,
        ErrorView::NotFound { .. } => 404,
    }
}

/// What [`Error::to_text`] renders for an error.
pub open spec fn rendered(e: ErrorView) -> Seq<char> {
    match e {
        ErrorView::InvalidArgs { .. } => "invalid arguments"@,
        ErrorView::Internal { message } => "internal error: "@ + message,
        ErrorView::NotFound { message } => "not found error: "@ + message,
    }
}

impl Error {
    /// An internal failure with the given message.
    pub fn internal(message: String) -> (e: Error)
        ensures
            e@ == (ErrorView::Internal { message: message@ }),
    {
        Error::Internal { message }
    }

    /// A missing entity with the given message.
    pub fn not_found(message: String) -> (e: Error)
        ensures
            e@ == (ErrorView::NotFound { message: message@ }),
    {
        Error::NotFound { message }
    }

    /// A rejected request with exactly one message.
    pub fn invalid_args(message: &str) -> (e: Error)
        ensures
            e@ == (ErrorView::InvalidArgs { messages: seq![message@] }),
    {
        let mut messages: Vec<String> = Vec::new();
        messages.push(message.to_owned());
        assert(texts(messages@) =~= seq![message@]);
        Error::InvalidArgs { messages }
    }

    /// The HTTP status for this error: the caller's fault, ours, or nothing
    /// there.
    pub fn status_code(&self) -> (code: u16)
        ensures
            code == status_of(self@),
    {
        match self {
            Error::InvalidArgs { .. } => 400,
            Error::Internal { .. } => 500,
            Error::NotFound { .. } => 404,
        }
    }

    /// The human-readable line for this error.
    pub fn to_text(&self) -> (text: String)
        ensures
            text@ == rendered(self@),
    {
        match self {
            Error::InvalidArgs { .. } => "invalid arguments".to_owned(),
            Error::Internal { message } => {
                "internal error: ".to_owned().concat(message.as_str())
            },
            Error::NotFound { message } => {
                "not found error: ".to_owned().concat(message.as_str())
            },
        }
    }
}

} // verus!
