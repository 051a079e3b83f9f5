//! The SQL that the backend runs.

use vstd::prelude::*;

pub mod statements;
pub mod stories;
pub mod tasks;

verus! {

/// Supports tables existing in multiple schemas.
pub const SET_SEARCH_PATH: &'static str = "set search_path to public,bb8_todos";

/// The SQL of the statements that have no key of their own: a connection
/// prepares them by their text when it is made.
pub open spec fn unkeyed_sql() -> Seq<Seq<char>> {
    seq![
        stories::UPDATE@,
        tasks::FETCH@,
        tasks::SELECT@,
        tasks::INSERT@,
        tasks::UPDATE@,
        tasks::DELETE@,
        tasks::DELETE_BY_STORY@,
    ]
}

/// The SQL of the statements that have no key of their own.
pub fn unkeyed() -> (texts: Vec<&'static str>)
    ensures
        texts@.len() == unkeyed_sql().len(),
        forall|i: int| 0 <= i < texts@.len() ==> (#[trigger] texts@[i])@ == unkeyed_sql()[i],
{
    let mut texts: Vec<&'static str> = Vec::new();
    texts.push(stories::UPDATE);
    texts.push(tasks::FETCH);
    texts.push(tasks::SELECT);
    texts.push(tasks::INSERT);
    texts.push(tasks::UPDATE);
    texts.push(tasks::DELETE);
    texts.push(tasks::DELETE_BY_STORY);
    texts
}

} // verus!
