//! Queries for the "tasks" table

use vstd::prelude::*;

verus! {

pub const FETCH: &'static str = "select id, story_id, name, status from tasks where id = $1";

pub const DELETE: &'static str = "delete from tasks where id = $1";

pub const DELETE_BY_STORY: &'static str = "delete from tasks where story_id = $1";

pub const UPDATE: &'static str =
    "update tasks set name = $1, status = $2 where id = $3 returning story_id";

pub const INSERT: &'static str =
    "insert into tasks (story_id, name, status) values ($1, $2, $3) returning id";

pub const SELECT: &'static str = r#"
select id, story_id, name, status from tasks where story_id = $1 and id >= $2 order by id limit 10
"#;

} // verus!
