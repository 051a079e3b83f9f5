//! The statements of a connection as one group.

pub mod statements;
