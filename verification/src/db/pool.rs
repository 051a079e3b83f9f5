//! What the connection pool is built from, and how its failures read.

use vstd::prelude::*;
use crate::error::{Error, ErrorView};

pub mod connection;

verus! {

/// Why the pool could not hand out a connection.
#[derive(Debug)]
pub enum PoolFailure {
    /// No connection came free within the time allowed.
    TimedOut,
    /// The database refused a new connection, with its reason.
    User(String),
}

/// Used to construct a custom postgres connection pool.
pub struct PgPoolBuilder {}

impl PgPoolBuilder {
    /// The size to build the pool with: the one asked for, but an internal
    /// error for a pool of no connections, which could serve nobody.
    pub fn max_size(asked: u32) -> (size: Result<u32, Error>)
        ensures
            asked > 0 ==> size == Ok::<u32, Error>(asked),
            asked == 0 ==> size is Err && size->Err_0@ == (ErrorView::Internal {
                message: "max_size must be greater than zero!"@,
            }),
    {
        if asked > 0 {
            Ok(asked)
        } else {
            Err(Error::internal("max_size must be greater than zero!".to_owned()))
        }
    }

    /// The error that a failure of the pool surfaces as: always an internal
    /// one, which the caller may retry or not.
    pub fn failure(failure: PoolFailure) -> (e: Error)
        ensures
            e@ == (ErrorView::Internal {
                message: match failure {
                    PoolFailure::TimedOut => "connection timed out"@,
                    PoolFailure::User(reason) => reason@,
                },
            }),
    {
        match failure {
            PoolFailure::TimedOut => Error::internal("connection timed out".to_owned()),
            PoolFailure::User(reason) => Error::internal(reason),
        }
    }
}

} // verus!
