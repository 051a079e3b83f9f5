//! Tasks.

use vstd::prelude::*;
use crate::domain::status::{status_named, Status};

verus! {

/// A single action item for a story that must be completed.
#[derive(Debug, PartialEq, Eq, PartialOrd, Ord, Hash)]
pub struct Task {
    pub id: i32,
    pub story_id: i32,
    pub name: String,
    pub status: Status,
}

/// A task as a value: its ids, the characters of its name, and its status.
pub struct TaskView {
    pub id: i32,
    pub story_id: i32,
    pub name: Seq<char>,
    pub status: Status,
}

impl View for Task {
    type V = TaskView;

    open spec fn view(&self) -> TaskView {
        TaskView { id: self.id, story_id: self.story_id, name: self.name@, status: self.status }
    }
}

/// The status a stored word stands for: the one it names, and the default
/// for a word that names none.
pub open spec fn stored_status(word: Seq<char>) -> Status {
    match status_named(word) {
        Some(status) => status,
        None => Status::Incomplete,
    }
}

impl Task {
    /// Create a new task
    pub fn new(id: i32, story_id: i32, name: String, status: Status) -> (task: Task)
        ensures
            task@ == (TaskView { id, story_id, name: name@, status }),
    {
        Self { id, story_id, name, status }
    }

    /// The task in a row of the tasks table: the columns as they are, but
    /// for the status, which is stored as a word.
    pub fn from_row(id: i32, story_id: i32, name: String, status: &str) -> (task: Task)
        ensures
            task@ == (TaskView { id, story_id, name: name@, status: stored_status(status@) }),
    {
        let status = match Status::parse(status) {
            Ok(status) => status,
            Err(_) => Status::default(),
        };
        Task::new(id, story_id, name, status)
    }
}

} // verus!
