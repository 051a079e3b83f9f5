//! Request bodies, and what makes them acceptable.

use vstd::prelude::*;
use vstd::utf8::encode_utf8;
use crate::domain::status::{status_named, Status};
use crate::domain::task::Task;
use crate::error::{texts, Error, ErrorView};
use crate::text::{trim, trimmed};

verus! {

/// Limit name size in http request body.
pub const MAX_NAME_LEN: usize = 100;

/// Whether `name` can be the name of a story or a task: trimmed, it is not
/// empty and takes at most `MAX_NAME_LEN` bytes in UTF-8.
pub open spec fn valid_name(name: Seq<char>) -> bool {
    let t = trimmed(name);
    t.len() > 0 && encode_utf8(t).len() <= MAX_NAME_LEN
}

/// Trims `name` and says whether the result is acceptable.
fn checked_name(name: &str) -> (checked: (bool, &str))
    ensures
        checked.0 == valid_name(name@),
        checked.1@ == trimmed(name@),
{
    let t = trim(name);
    let size = t.as_bytes().len();
    (!(t.is_empty() || size > MAX_NAME_LEN), t)
}

/// The request body for creating or updating stories
#[derive(Debug)]
pub struct StoryBody {
    name: String,
}

impl View for StoryBody {
    type V = Seq<char>;

    /// The name as it was sent.
    closed spec fn view(&self) -> Seq<char> {
        self.name@
    }
}

impl StoryBody {
    /// A body that asks for the given name.
    pub fn new(name: String) -> (body: StoryBody)
        ensures
            body@ == name@,
    {
        StoryBody { name }
    }

    /// Sanitize and validate story name from request body
    pub fn validate(&self) -> (checked: Result<String, Error>)
        ensures
            valid_name(self@) ==> checked is Ok && checked->Ok_0@ == trimmed(self@),
            !valid_name(self@) ==> checked is Err && checked->Err_0@ == (ErrorView::InvalidArgs {
                messages: seq!["name: invalid length"@],
            }),
    {
        let (ok, name) = checked_name(self.name.as_str());
        if !ok {
            return Err(Error::invalid_args("name: invalid length"));
        }
        Ok(name.to_owned())
    }
}

/// The POST body for creating tasks
#[derive(Debug)]
pub struct CreateTaskBody {
    pub name: String,
    pub story_id: i32,
}

/// What is wrong with a request to create a task, one message per field,
/// the story id first.
pub open spec fn create_task_faults(story_id: i32, name: Seq<char>) -> Seq<Seq<char>> {
    let id_faults = if story_id <= 0 {
        seq!["story_id: must be > 0"@]
    } else {
        Seq::empty()
    };
    let name_faults = if valid_name(name) {
        Seq::empty()
    } else {
        seq!["name: invalid length"@]
    };
    id_faults + name_faults
}

impl CreateTaskBody {
    /// Sanitize and validate task name and story_id from request body
    pub fn validate(&self) -> (checked: Result<(i32, String), Error>)
        ensures
            match checked {
                Ok((story_id, name)) => {
                    &&& create_task_faults(self.story_id, self.name@).len() == 0
                    &&& story_id == self.story_id
                    &&& name@ == trimmed(self.name@)
                },
                Err(e) => {
                    &&& create_task_faults(self.story_id, self.name@).len() > 0
                    &&& e@ == (ErrorView::InvalidArgs {
                        messages: create_task_faults(self.story_id, self.name@),
                    })
                },
            },
    {
        let mut messages: Vec<String> = Vec::new();
        let story_id = self.story_id;
        if story_id <= 0 {
            messages.push("story_id: must be > 0".to_owned());
        }
        let (ok, name) = checked_name(self.name.as_str());
        if !ok {
            messages.push("name: invalid length".to_owned());
        }
        assert(texts(messages@) =~= create_task_faults(self.story_id, self.name@));
        if messages.is_empty() {
            Ok((story_id, name.to_owned()))
        } else {
            Err(Error::InvalidArgs { messages })
        }
    }
}

/// The PATCH body for updating tasks
#[derive(Debug)]
pub struct PatchTaskBody {
    pub name: Option<String>,
    pub status: Option<String>,
}

/// What is wrong with the fields that a request to change a task holds, the
/// name first.
pub open spec fn patch_task_faults(name: Option<Seq<char>>, status: Option<Seq<char>>) -> Seq<
    Seq<char>,
> {
    let name_faults = if name is Some && !valid_name(name->0) {
        seq!["name: invalid length"@]
    } else {
        Seq::empty()
    };
    let status_faults = if status is Some && status_named(status->0) is None {
        seq!["status: invalid enum variant"@]
    } else {
        Seq::empty()
    };
    name_faults + status_faults
}

/// The characters of a field that may be absent.
pub open spec fn field_text(field: Option<String>) -> Option<Seq<char>> {
    match field {
        Some(s) => Some(s@),
        None => None,
    }
}

impl PatchTaskBody {
    /// Helper to validate fields to update for a task: the name and status
    /// that the task is to have, each the one asked for, or the one the task
    /// has where none is asked for. A body that asks for nothing is refused,
    /// and so is one with a field that cannot be used.
    pub fn validate(&self, task: Task) -> (checked: Result<(String, Status), Error>)
        ensures
            self.name is None && self.status is None ==> checked is Err && checked->Err_0@ == (
            ErrorView::InvalidArgs { messages: seq!["name and/or status must be provided"@] }),
            self.name is Some || self.status is Some ==> match checked {
                Ok((name, status)) => {
                    &&& patch_task_faults(field_text(self.name), field_text(self.status)).len()
                        == 0
                    &&& name@ == (match self.name {
                        Some(n) => trimmed(n@),
                        None => task.name@,
                    })
                    &&& status == (match self.status {
                        Some(s) => status_named(s@)->0,
                        None => task.status,
                    })
                },
                Err(e) => {
                    &&& patch_task_faults(field_text(self.name), field_text(self.status)).len() > 0
                    &&& e@ == (ErrorView::InvalidArgs {
                        messages: patch_task_faults(
                            field_text(self.name),
                            field_text(self.status),
                        ),
                    })
                },
            },
    {
        if self.name.is_none() && self.status.is_none() {
            return Err(Error::invalid_args("name and/or status must be provided"));
        }
        let mut name = task.name;
        let mut status = task.status;
        let mut messages: Vec<String> = Vec::new();
        if let Some(n) = &self.name {
            let (ok, n) = checked_name(n.as_str());
            if !ok {
                messages.push("name: invalid length".to_owned());
            } else {
                name = n.to_owned();
            }
        }
        if let Some(s) = &self.status {
            match Status::parse(s.as_str()) {
                Ok(s) => {
                    status = s;
                },
                Err(_) => {
                    messages.push("status: invalid enum variant".to_owned());
                },
            }
        }
        assert(texts(messages@) =~= patch_task_faults(
            field_text(self.name),
            field_text(self.status),
        ));
        if messages.is_empty() {
            Ok((name, status))
        } else {
            Err(Error::InvalidArgs { messages })
        }
    }
}

/// The query parameters for getting a page of rows
#[derive(Debug, Default)]
pub struct PagingParams {
    /// Page id (last accessed page's max id)
    pub page_id: Option<i32>,
}

} // verus!
