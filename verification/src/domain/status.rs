//! Whether a task is done.

use vstd::prelude::*;
use crate::error::{Error, ErrorView};
use crate::text::{lowercase, to_lowercase, trim, trimmed};

verus! {

/// Indicates whether a task has been completed.
#[derive(Debug, Clone, Copy, PartialEq, Eq, PartialOrd, Ord, Hash, Structural)]
pub enum Status {
    Complete,
    Incomplete,
}

/// The status that `word` is the word for, to the letter.
pub open spec fn status_of_word(word: Seq<char>) -> Option<Status> {
    if word == "complete"@ {
        Some(Status::Complete)
    } else if word == "incomplete"@ {
        Some(Status::Incomplete)
    } else {
        None
    }
}

/// The status that `text` names, white space and letter case aside.
pub open spec fn status_named(text: Seq<char>) -> Option<Status> {
    status_of_word(lowercase(trimmed(text)))
}

/// The error for a word that names no status.
pub open spec fn no_such_status() -> ErrorView {
    ErrorView::InvalidArgs { messages: seq!["invalid enum variant"@] }
}

/// The word for a status.
pub open spec fn status_word(status: Status) -> Seq<char> {
    match status {
        Status::Complete => "complete"@,
        Status::Incomplete => "incomplete"@,
    }
}

impl Default for Status {
    /// A task starts out incomplete.
    fn default() -> (status: Status)
        ensures
            status == Status::Incomplete,
    {
        Status::Incomplete
    }
}

impl Status {
    /// The status that `word` is the word for, to the letter, or the error
    /// for a word that is none.
    pub fn of_word(word: &str) -> (found: Result<Status, Error>)
        ensures
            match status_of_word(word@) {
                Some(status) => found == Ok::<Status, Error>(status),
                None => found is Err && found->Err_0@ == no_such_status(),
            },
    {
        let word = word.to_owned();
        if word == "complete".to_owned() {
            Ok(Status::Complete)
        } else if word == "incomplete".to_owned() {
            Ok(Status::Incomplete)
        } else {
            Err(Error::invalid_args("invalid enum variant"))
        }
    }

    /// The status that `s` names, white space and letter case aside, or the
    /// error for a text that names none.
    pub fn parse(s: &str) -> (parsed: Result<Status, Error>)
        ensures
            match status_named(s@) {
                Some(status) => parsed == Ok::<Status, Error>(status),
                None => parsed is Err && parsed->Err_0@ == no_such_status(),
            },
    {
        let word = to_lowercase(trim(s));
        Status::of_word(word.as_str())
    }

    /// The word for this status, as it is stored and shown.
    pub fn as_str(&self) -> (word: &'static str)
        ensures
            word@ == status_word(*self),
    {
        match self {
            Status::Complete => "complete",
            Status::Incomplete => "incomplete",
        }
    }

    /// The word for this status, owned.
    pub fn to_text(&self) -> (word: String)
        ensures
            word@ == status_word(*self),
    {
        self.as_str().to_owned()
    }
}

impl std::str::FromStr for Status {
    type Err = Error;

    /// The status that `s` names, exactly as [`Status::parse`] reads it.
    fn from_str(s: &str) -> (parsed: Result<Status, Error>)
        ensures
            match status_named(s@) {
                Some(status) => parsed == Ok::<Status, Error>(status),
                None => parsed is Err && parsed->Err_0@ == no_such_status(),
            },
    {
        Status::parse(s)
    }
}

} // verus!
