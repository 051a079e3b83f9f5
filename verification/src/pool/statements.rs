//! The four statements on stories, prepared together.

use vstd::prelude::*;
use crate::db::sql::statements::{StatementCache, StatementKey};

verus! {

/// The statements by name.
#[derive(Debug, Clone, Copy, PartialEq, Eq, PartialOrd, Ord, Hash, Structural)]
pub enum Name {
    SelectStories,
    SelectStory,
    InsertStory,
    DeleteStory,
}

impl Name {
    /// The cache key of the statement with this name.
    pub fn key(&self) -> (key: StatementKey)
        ensures
            key == (match *self {
                Name::SelectStories => StatementKey::SelectStories,
                Name::SelectStory => StatementKey::SelectStory,
                Name::InsertStory => StatementKey::InsertStory,
                Name::DeleteStory => StatementKey::DeleteStory,
            }),
    {
        match self {
            Name::SelectStories => StatementKey::SelectStories,
            Name::SelectStory => StatementKey::SelectStory,
            Name::InsertStory => StatementKey::InsertStory,
            Name::DeleteStory => StatementKey::DeleteStory,
        }
    }
}

/// Grouped prepared statements
pub struct Statements<S> {
    pub select_story: S,
    pub select_stories: S,
    pub insert_story: S,
    pub delete_story: S,
}

impl<S> Statements<S> {
    /// Puts the four statements into a connection's cache, each under its
    /// key. The cache is complete afterwards.
    pub fn cache_in(self, cache: &mut StatementCache<S>)
        ensures
            final(cache).slot(StatementKey::SelectStories) == Some(self.select_stories),
            final(cache).slot(StatementKey::SelectStory) == Some(self.select_story),
            final(cache).slot(StatementKey::InsertStory) == Some(self.insert_story),
            final(cache).slot(StatementKey::DeleteStory) == Some(self.delete_story),
            final(cache).is_complete(),
    {
        let Statements { select_story, select_stories, insert_story, delete_story } = self;
        cache.insert(StatementKey::SelectStories, select_stories);
        cache.insert(StatementKey::SelectStory, select_story);
        cache.insert(StatementKey::InsertStory, insert_story);
        cache.insert(StatementKey::DeleteStory, delete_story);
        assert forall|key: StatementKey| cache.slot(key) is Some by {
            match key {
                StatementKey::SelectStories => {},
                StatementKey::SelectStory => {},
                StatementKey::InsertStory => {},
                StatementKey::DeleteStory => {},
            }
        }
    }
}

} // verus!
