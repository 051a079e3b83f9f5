//! Tasks as the database returns them.

use vstd::prelude::*;
use crate::domain::status::Status;
use crate::domain::task::{Task, TaskView};
use crate::error::{Error, ErrorView};
use crate::text::{decimal, decimal_text};

verus! {

/// The task that a lookup by id found, or the error for one that is not
/// there.
pub fn found_task(id: i32, row: Option<Task>) -> (found: Result<Task, Error>)
    ensures
        match row {
            Some(task) => found is Ok && found->Ok_0 == task,
            None => found is Err && found->Err_0@ == (ErrorView::NotFound {
                message: "task not found: "@ + decimal(id as int),
            }),
        },
{
    match row {
        Some(task) => Ok(task),
        None => {
            let number = decimal_text(id);
            Err(Error::not_found("task not found: ".to_owned().concat(number.as_str())))
        },
    }
}

/// The task that an insert made, given the id that the database returned for
/// it: a task starts out in the default status.
pub fn inserted_task(id: i32, story_id: i32, name: String) -> (task: Task)
    ensures
        task@ == (TaskView { id, story_id, name: name@, status: Status::Incomplete }),
{
    Task::new(id, story_id, name, Status::default())
}

/// The cursor of the page after `tasks`: the id that follows the last task's,
/// and 0, which names no row, where there is no task or no such id.
pub open spec fn cursor_after(tasks: Seq<Task>) -> int {
    if tasks.len() > 0 && tasks.last().id < i32::MAX {
        tasks.last().id + 1
    } else {
        0
    }
}

/// The cursor of the page of tasks that follows this one.
pub fn next_task_cursor(tasks: &Vec<Task>) -> (cursor: i32)
    ensures
        cursor == cursor_after(tasks@),
{
    let n = tasks.len();
    if n > 0 && tasks[n - 1].id < i32::MAX {
        tasks[n - 1].id + 1
    } else {
        0
    }
}

} // verus!
