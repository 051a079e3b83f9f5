//! The statements that a connection has prepared so far, by their SQL. A
//! statement is prepared the first time its SQL is asked for and found again
//! every time after.

use vstd::prelude::*;
use crate::error::{Error, ErrorView};

verus! {

/// The statement of the first entry whose SQL is `sql`, if there is one.
pub open spec fn first_with<S>(entries: Seq<(String, S)>, sql: Seq<char>) -> Option<S>
    decreases entries.len(),
{
    if entries.len() == 0 {
        None
    } else if entries[0].0@ == sql {
        Some(entries[0].1)
    } else {
        first_with(entries.skip(1), sql)
    }
}

/// What searching the entries from `from` on finds is what searching all of
/// them finds, where none before `from` has the SQL.
proof fn lemma_first_with_from<S>(entries: Seq<(String, S)>, sql: Seq<char>, from: int)
    requires
        0 <= from <= entries.len(),
        forall|j: int| 0 <= j < from ==> entries[j].0@ != sql,
    ensures
        first_with(entries, sql) == first_with(entries.skip(from), sql),
    decreases from,
{
    if from > 0 {
        assert(entries.skip(1).skip(from - 1) =~= entries.skip(from));
        lemma_first_with_from(entries.skip(1), sql, from - 1);
    } else {
        assert(entries.skip(0) =~= entries);
    }
}

/// Replacing the statement of entry `at` changes what is found for its SQL,
/// where it is the first with that SQL, and for no other.
proof fn lemma_first_with_update<S>(
    entries: Seq<(String, S)>,
    at: int,
    entry: (String, S),
    sql: Seq<char>,
)
    requires
        0 <= at < entries.len(),
        entry.0@ == entries[at].0@,
        forall|j: int| 0 <= j < at ==> entries[j].0@ != entry.0@,
    ensures
        first_with(entries.update(at, entry), sql) == (if sql == entry.0@ {
            Some(entry.1)
        } else {
            first_with(entries, sql)
        }),
    decreases at,
{
    let updated = entries.update(at, entry);
    if at == 0 {
        assert(updated.skip(1) =~= entries.skip(1));
    } else {
        assert(updated.skip(1) =~= entries.skip(1).update(at - 1, entry));
        lemma_first_with_update(entries.skip(1), at - 1, entry, sql);
    }
}

/// Adding an entry at the end changes what is found for its SQL, where no
/// entry had that SQL, and for no other.
proof fn lemma_first_with_push<S>(entries: Seq<(String, S)>, entry: (String, S), sql: Seq<char>)
    requires
        first_with(entries, entry.0@) is None,
    ensures
        first_with(entries.push(entry), sql) == (if sql == entry.0@ {
            Some(entry.1)
        } else {
            first_with(entries, sql)
        }),
    decreases entries.len(),
{
    let pushed = entries.push(entry);
    if entries.len() == 0 {
        assert(pushed.skip(1) =~= entries);
    } else {
        assert(pushed.skip(1) =~= entries.skip(1).push(entry));
        lemma_first_with_push(entries.skip(1), entry, sql);
    }
}

/// The prepared statements of one connection, by SQL text. `S` is the
/// driver's statement handle.
pub struct PsCache<S> {
    entries: Vec<(String, S)>,
}

impl<S> PsCache<S> {
    /// The statement cached for `sql`, if there is one.
    pub closed spec fn cached(&self, sql: Seq<char>) -> Option<S> {
        first_with(self.entries@, sql)
    }

    /// The cache of a connection that has prepared nothing yet.
    pub fn new() -> (cache: Self)
        ensures
            forall|sql: Seq<char>| cache.cached(sql) is None,
    {
        PsCache { entries: Vec::new() }
    }

    /// Where the entry for `sql` stands, or how many entries there are.
    fn position(&self, sql: &str) -> (at: usize)
        ensures
            at <= self.entries@.len(),
            forall|j: int| 0 <= j < at ==> self.entries@[j].0@ != sql@,
            at < self.entries@.len() ==> self.entries@[at as int].0@ == sql@,
            at < self.entries@.len() ==> self.cached(sql@) == Some(self.entries@[at as int].1),
            at == self.entries@.len() ==> self.cached(sql@) is None,
    {
        let wanted = sql.to_owned();
        let mut at: usize = 0;
        while at < self.entries.len() && self.entries[at].0 != wanted
            invariant
                at <= self.entries@.len(),
                wanted@ == sql@,
                forall|j: int| 0 <= j < at ==> self.entries@[j].0@ != sql@,
            decreases self.entries@.len() - at,
        {
            at = at + 1;
        }
        proof {
            lemma_first_with_from(self.entries@, sql@, at as int);
        }
        at
    }

    /// The statement prepared for `sql`, if it has been prepared on this
    /// connection.
    pub fn get(&self, sql: &str) -> (found: Option<&S>)
        ensures
            match self.cached(sql@) {
                Some(statement) => found is Some && *found->0 == statement,
                None => found is None,
            },
    {
        let at = self.position(sql);
        if at < self.entries.len() {
            Some(&self.entries[at].1)
        } else {
            None
        }
    }

    /// The statement prepared for `sql`. SQL without one is a fault of the
    /// deployment, and comes back as an internal error that names the SQL.
    pub fn require(&self, sql: &str) -> (found: Result<&S, Error>)
        ensures
            match self.cached(sql@) {
                Some(statement) => found is Ok && *found->Ok_0 == statement,
                None => found is Err && found->Err_0@ == (ErrorView::Internal {
                    message: "statement not prepared: "@ + sql@,
                }),
            },
    {
        match self.get(sql) {
            Some(statement) => Ok(statement),
            None => Err(Error::internal("statement not prepared: ".to_owned().concat(sql))),
        }
    }

    /// Caches `statement` for `sql`, in place of what was cached for it. No
    /// other SQL is touched.
    pub fn insert(&mut self, sql: String, statement: S)
        ensures
            forall|other: Seq<char>|
                #[trigger] final(self).cached(other) == (if other == sql@ {
                    Some(statement)
                } else {
                    old(self).cached(other)
                }),
    {
        let at = self.position(sql.as_str());
        let ghost before = self.entries@;
        let ghost entry = (sql, statement);
        if at < self.entries.len() {
            self.entries[at] = (sql, statement);
            assert forall|other: Seq<char>|
                #[trigger] first_with(self.entries@, other) == (if other == entry.0@ {
                    Some(entry.1)
                } else {
                    first_with(before, other)
                }) by {
                lemma_first_with_update(before, at as int, entry, other);
            }
        } else {
            self.entries.push((sql, statement));
            assert forall|other: Seq<char>|
                #[trigger] first_with(self.entries@, other) == (if other == entry.0@ {
                    Some(entry.1)
                } else {
                    first_with(before, other)
                }) by {
                lemma_first_with_push(before, entry, other);
            }
        }
    }
}

} // verus!
