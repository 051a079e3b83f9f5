//! The prepared statements that a connection keeps ready, one per hot-path
//! query. A prepared statement belongs to the connection that prepared it,
//! so each connection owns a cache of its own.

use vstd::prelude::*;
use crate::db::sql::stories;
use crate::error::{Error, ErrorView};

verus! {

/// The hot-path queries. The set is closed: a new query needs a new key.
#[derive(Debug, Clone, Copy, PartialEq, Eq, PartialOrd, Ord, Hash, Structural)]
pub enum StatementKey {
    SelectStories,
    SelectStory,
    InsertStory,
    DeleteStory,
}

/// The SQL of a key's query.
pub open spec fn key_sql(key: StatementKey) -> Seq<char> {
    match key {
        StatementKey::SelectStories => stories::SELECT@,
        StatementKey::SelectStory => stories::FETCH@,
        StatementKey::InsertStory => stories::INSERT@,
        StatementKey::DeleteStory => stories::DELETE@,
    }
}

/// The name of a key, as error messages give it.
pub open spec fn key_name(key: StatementKey) -> Seq<char> {
    match key {
        StatementKey::SelectStories => "SelectStories"@,
        StatementKey::SelectStory => "SelectStory"@,
        StatementKey::InsertStory => "InsertStory"@,
        StatementKey::DeleteStory => "DeleteStory"@,
    }
}

/// Every key, in the order in which their queries are prepared.
pub open spec fn all_keys() -> Seq<StatementKey> {
    seq![
        StatementKey::SelectStories,
        StatementKey::SelectStory,
        StatementKey::InsertStory,
        StatementKey::DeleteStory,
    ]
}

impl StatementKey {
    /// The SQL to prepare for this key.
    pub fn sql(&self) -> (sql: &'static str)
        ensures
            sql@ == key_sql(*self),
    {
        match self {
            StatementKey::SelectStories => stories::SELECT,
            StatementKey::SelectStory => stories::FETCH,
            StatementKey::InsertStory => stories::INSERT,
            StatementKey::DeleteStory => stories::DELETE,
        }
    }

    /// The name of this key.
    pub fn name(&self) -> (name: &'static str)
        ensures
            name@ == key_name(*self),
    {
        match self {
            StatementKey::SelectStories => "SelectStories",
            StatementKey::SelectStory => "SelectStory",
            StatementKey::InsertStory => "InsertStory",
            StatementKey::DeleteStory => "DeleteStory",
        }
    }

    /// Every key there is: what a new connection has to prepare.
    pub fn all() -> (keys: Vec<StatementKey>)
        ensures
            keys@ == all_keys(),
            forall|key: StatementKey| keys@.contains(key),
    {
        let mut keys: Vec<StatementKey> = Vec::new();
        keys.push(StatementKey::SelectStories);
        keys.push(StatementKey::SelectStory);
        keys.push(StatementKey::InsertStory);
        keys.push(StatementKey::DeleteStory);
        assert(keys@ =~= all_keys());
        assert forall|key: StatementKey| keys@.contains(key) by {
            match key {
                StatementKey::SelectStories => assert(keys@[0] == key),
                StatementKey::SelectStory => assert(keys@[1] == key),
                StatementKey::InsertStory => assert(keys@[2] == key),
                StatementKey::DeleteStory => assert(keys@[3] == key),
            }
        }
        keys
    }
}

/// One preparation: the key, and the statement or what the driver said
/// against it.
pub type Prepared<S> = (StatementKey, Result<S, String>);

/// The statement that a batch of preparations leaves for `key`: the last one
/// prepared for it, if any was.
pub open spec fn last_prepared<S>(batch: Seq<Prepared<S>>, key: StatementKey) -> Option<S>
    decreases batch.len(),
{
    if batch.len() == 0 {
        None
    } else if batch.last().0 == key && batch.last().1 is Ok {
        Some(batch.last().1->Ok_0)
    } else {
        last_prepared(batch.drop_last(), key)
    }
}

/// What a key's slot holds once a batch has been taken in: the last statement
/// that the batch prepared for the key, or what the slot held before.
pub open spec fn after_batch<S>(before: Option<S>, batch: Seq<Prepared<S>>, key: StatementKey)
    -> Option<S> {
    match last_prepared(batch, key) {
        Some(statement) => Some(statement),
        None => before,
    }
}

/// Whether the batch holds a preparation that succeeded for every key.
pub open spec fn prepares_every_key<S>(batch: Seq<Prepared<S>>) -> bool {
    forall|key: StatementKey| last_prepared(batch, key) is Some
}

/// Taking a batch in a second time changes nothing: what prepares a new
/// connection may safely run again on the same one.
pub proof fn lemma_batch_twice<S>(before: Option<S>, batch: Seq<Prepared<S>>, key: StatementKey)
    ensures
        after_batch(after_batch(before, batch, key), batch, key) == after_batch(before, batch, key),
{
}

/// A batch that prepared every key leaves no key without its statement,
/// whatever the cache held before.
pub proof fn lemma_full_batch_fills<S>(
    before: Option<S>,
    batch: Seq<Prepared<S>>,
    key: StatementKey,
)
    requires
        prepares_every_key(batch),
    ensures
        after_batch(before, batch, key) is Some,
{
}

/// A batch with one preparation per key, all of which succeeded, prepares
/// every key.
pub proof fn lemma_plan_prepares_every_key<S>(batch: Seq<Prepared<S>>)
    requires
        all_prepared(batch),
        batch.len() == all_keys().len(),
        forall|i: int| 0 <= i < batch.len() ==> (#[trigger] batch[i]).0 == all_keys()[i],
    ensures
        prepares_every_key(batch),
{
    assert forall|key: StatementKey| last_prepared(batch, key) is Some by {
        let b3 = batch;
        let b2 = b3.drop_last();
        let b1 = b2.drop_last();
        let b0 = b1.drop_last();
        assert(b3.last() == batch[3] && b2.last() == batch[2] && b1.last() == batch[1]
            && b0.last() == batch[0]);
        assert(batch[0].1 is Ok && batch[1].1 is Ok && batch[2].1 is Ok && batch[3].1 is Ok);
        match key {
            StatementKey::DeleteStory => {},
            StatementKey::InsertStory => {
                assert(last_prepared(b3, key) == last_prepared(b2, key));
            },
            StatementKey::SelectStory => {
                assert(last_prepared(b3, key) == last_prepared(b2, key));
                assert(last_prepared(b2, key) == last_prepared(b1, key));
            },
            StatementKey::SelectStories => {
                assert(last_prepared(b3, key) == last_prepared(b2, key));
                assert(last_prepared(b2, key) == last_prepared(b1, key));
                assert(last_prepared(b1, key) == last_prepared(b0, key));
            },
        }
    }
}

/// Whether preparation `i` of the batch is the first that failed.
pub open spec fn first_failure<S>(batch: Seq<Prepared<S>>, i: int) -> bool {
    &&& 0 <= i < batch.len()
    &&& batch[i].1 is Err
    &&& forall|j: int| 0 <= j < i ==> batch[j].1 is Ok
}

/// Whether every preparation of the batch succeeded.
pub open spec fn all_prepared<S>(batch: Seq<Prepared<S>>) -> bool {
    forall|i: int| 0 <= i < batch.len() ==> (#[trigger] batch[i]).1 is Ok
}

/// The prepared statements of one connection, by key. `S` is the driver's
/// statement handle.
pub struct StatementCache<S> {
    select_stories: Option<S>,
    select_story: Option<S>,
    insert_story: Option<S>,
    delete_story: Option<S>,
}

impl<S> StatementCache<S> {
    /// The statement cached for `key`, if there is one.
    pub closed spec fn slot(&self, key: StatementKey) -> Option<S> {
        match key {
            StatementKey::SelectStories => self.select_stories,
            StatementKey::SelectStory => self.select_story,
            StatementKey::InsertStory => self.insert_story,
            StatementKey::DeleteStory => self.delete_story,
        }
    }

    /// Whether two caches hold the same statements.
    pub open spec fn same_as(&self, other: &Self) -> bool {
        forall|key: StatementKey| self.slot(key) == other.slot(key)
    }

    /// Whether every key has its statement.
    pub open spec fn is_complete(&self) -> bool {
        forall|key: StatementKey| self.slot(key) is Some
    }

    /// The cache of a connection that has prepared nothing yet.
    pub fn new() -> (cache: Self)
        ensures
            forall|key: StatementKey| cache.slot(key) is None,
    {
        StatementCache {
            select_stories: None,
            select_story: None,
            insert_story: None,
            delete_story: None,
        }
    }

    /// Caches `statement` for `key` and returns what was cached for it
    /// before. No other key is touched.
    pub fn insert(&mut self, key: StatementKey, statement: S) -> (before: Option<S>)
        ensures
            final(self).slot(key) == Some(statement),
            before == old(self).slot(key),
            forall|other: StatementKey| other != key ==> final(self).slot(other) == old(self).slot(other),
    {
        let mut slot = Some(statement);
        match key {
            StatementKey::SelectStories => std::mem::swap(&mut self.select_stories, &mut slot),
            StatementKey::SelectStory => std::mem::swap(&mut self.select_story, &mut slot),
            StatementKey::InsertStory => std::mem::swap(&mut self.insert_story, &mut slot),
            StatementKey::DeleteStory => std::mem::swap(&mut self.delete_story, &mut slot),
        }
        slot
    }

    /// The statement cached for `key`. A key without one is a fault of the
    /// deployment, and comes back as an internal error that names the key.
    pub fn get(&self, key: StatementKey) -> (found: Result<&S, Error>)
        ensures
            match self.slot(key) {
                Some(statement) => found is Ok && *found->Ok_0 == statement,
                None => found is Err && found->Err_0@ == (ErrorView::Internal {
                    message: "statement not prepared: "@ + key_name(key),
                }),
            },
    {
        let slot = match key {
            StatementKey::SelectStories => &self.select_stories,
            StatementKey::SelectStory => &self.select_story,
            StatementKey::InsertStory => &self.insert_story,
            StatementKey::DeleteStory => &self.delete_story,
        };
        match slot {
            Some(statement) => Ok(statement),
            None => Err(
                Error::internal("statement not prepared: ".to_owned().concat(key.name())),
            ),
        }
    }

    /// Whether every key has its statement: whether the connection may be
    /// handed to a caller.
    pub fn complete(&self) -> (complete: bool)
        ensures
            complete == self.is_complete(),
    {
        let complete = self.select_stories.is_some() && self.select_story.is_some()
            && self.insert_story.is_some() && self.delete_story.is_some();
        proof {
            if complete {
                assert forall|key: StatementKey| self.slot(key) is Some by {
                    match key {
                        StatementKey::SelectStories => {},
                        StatementKey::SelectStory => {},
                        StatementKey::InsertStory => {},
                        StatementKey::DeleteStory => {},
                    }
                }
            } else {
                assert(self.slot(StatementKey::SelectStories) is None || self.slot(
                    StatementKey::SelectStory,
                ) is None || self.slot(StatementKey::InsertStory) is None || self.slot(
                    StatementKey::DeleteStory,
                ) is None);
            }
        }
        complete
    }

    /// Takes in a batch of preparations, all or none. Where one of them
    /// failed, the cache stays as it was and the first failure comes back as
    /// an internal error. Where all succeeded, each key that the batch
    /// prepared has the last statement prepared for it, and the other keys
    /// keep theirs.
    pub fn populate(&mut self, batch: Vec<Prepared<S>>) -> (done: Result<(), Error>)
        ensures
            done is Ok <==> all_prepared(batch@),
            done is Ok ==> forall|key: StatementKey|
                final(self).slot(key) == after_batch(old(self).slot(key), batch@, key),
            done is Ok && prepares_every_key(batch@) ==> final(self).is_complete(),
            done is Err ==> final(self).same_as(old(self)) && exists|i: int|
                #![trigger batch@[i]]
                first_failure(batch@, i) && done->Err_0@ == (ErrorView::Internal {
                    message: batch@[i].1->Err_0@,
                }),
    {
        let mut i: usize = 0;
        while i < batch.len()
            invariant
                i <= batch.len(),
                forall|j: int| 0 <= j < i ==> (#[trigger] batch@[j]).1 is Ok,
            decreases batch.len() - i,
        {
            match &batch[i].1 {
                Ok(_) => {},
                Err(message) => {
                    assert(first_failure(batch@, i as int));
                    return Err(Error::internal(message.clone()));
                },
            }
            i = i + 1;
        }
        let ghost whole = batch@;
        let mut batch = batch;
        let mut fresh: StatementCache<S> = StatementCache::new();
        while batch.len() > 0
            invariant
                batch@.len() <= whole.len(),
                batch@ == whole.take(batch@.len() as int),
                all_prepared(whole),
                forall|key: StatementKey|
                    last_prepared(whole, key) == (match fresh.slot(key) {
                        Some(statement) => Some(statement),
                        None => last_prepared(batch@, key),
                    }),
            decreases batch.len(),
        {
            let ghost longer = batch@;
            let entry = batch.pop();
            assert(batch@ =~= longer.drop_last());
            assert(batch@ =~= whole.take(batch@.len() as int));
            assert(longer.last() == whole[longer.len() - 1]);
            match entry {
                Some((key, Ok(statement))) => {
                    assert(longer.last() == (key, Ok::<S, String>(statement)));
                    let taken = match fresh.get(key) {
                        Ok(_) => true,
                        Err(_) => false,
                    };
                    if !taken {
                        fresh.insert(key, statement);
                    }
                },
                _ => {
                    assert(false);
                },
            }
        }
        assert(forall|key: StatementKey| last_prepared(batch@, key) is None);
        let StatementCache { select_stories, select_story, insert_story, delete_story } = fresh;
        if let Some(statement) = select_stories {
            self.select_stories = Some(statement);
        }
        if let Some(statement) = select_story {
            self.select_story = Some(statement);
        }
        if let Some(statement) = insert_story {
            self.insert_story = Some(statement);
        }
        if let Some(statement) = delete_story {
            self.delete_story = Some(statement);
        }
        proof {
            assert forall|key: StatementKey|
                final(self).slot(key) == (match last_prepared(whole, key) {
                    Some(statement) => Some(statement),
                    None => old(self).slot(key),
                }) by {
                match key {
                    StatementKey::SelectStories => {},
                    StatementKey::SelectStory => {},
                    StatementKey::InsertStory => {},
                    StatementKey::DeleteStory => {},
                }
            }
        }
        Ok(())
    }
}

} // verus!
