//! The database side: the queries, and what a connection keeps ready.

pub mod pool;
pub mod sql;
