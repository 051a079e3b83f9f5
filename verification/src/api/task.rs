//! What the task routes decide.

use vstd::prelude::*;
use crate::error::{status_of, Error};

verus! {

/// The status that answers a request to delete a task: 204 where a row
/// went, 404 where none did, and the error's own status where the delete
/// failed.
pub fn delete_task_status(outcome: &Result<u64, Error>) -> (code: u16)
    ensures
        code == (match *outcome {
            Ok(num_rows) => if num_rows > 0 {
                204u16
            } else {
                404u16
            },
            Err(e) => status_of(e@),
        }),
{
    match outcome {
        Err(err) => err.status_code(),
        Ok(num_rows) => {
            if *num_rows > 0 {
                204
            } else {
                404
            }
        },
    }
}

} // verus!
