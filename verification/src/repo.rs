//! What stands between the rows of the database and the domain: how a
//! query's rows become stories, tasks and page boundaries.

pub mod story;
pub mod task;
