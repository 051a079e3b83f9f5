//! Queries for the "stories" table, and what the page query returns.

use vstd::prelude::*;
use crate::domain::story::{Story, StoryView};
use crate::api::paging::{decoded, encoded, fresh, lemma_round_trip};
use crate::signer::key_pair;
use crate::repo::story::{
    current_stories, last_labeled, lemma_labels_differ, row_views, story_of, story_views,
    StoryRow, StoryRowView,
};

verus! {

pub const FETCH: &'static str = "select id, name from stories where id = $1";

pub const INSERT: &'static str = "insert into stories (name) values ($1) returning id";

pub const DELETE: &'static str = "delete from stories where id = $1";

pub const UPDATE: &'static str = "update stories set name = $1 where id = $2";

/// The page query. Its one parameter is the cursor: the id of the row that
/// the page starts at.
pub const SELECT: &'static str = r#"
with cursor as (
    select id from stories
    where id = $1
    order by id limit 1
), previous_page as (
    select id, name from stories
    where id < (select id from cursor)
    order by id desc limit 100
), current_next_page as (
    select id, name from stories
    where id >= (select id from cursor)
    order by id limit 101
) (
    select id, name, 'prev' as label from previous_page
    order by id limit 1
) union all (
    select id, name, 'current' as label from current_next_page
    order by id limit 100
) union all (
    select id, name, 'next' as label from current_next_page
    order by id limit 1 offset 100
)"#;

/// Whether the stories stand in the order of their ids, no id twice: the
/// table as a scan by its key reads it.
pub open spec fn ascending(table: Seq<StoryView>) -> bool {
    forall|i: int, j: int| 0 <= i < j < table.len() ==> table[i].id < table[j].id
}

/// Whether row `k` of the table is the cursor's row.
pub open spec fn is_cursor_row(table: Seq<StoryView>, cursor: i32, k: int) -> bool {
    0 <= k < table.len() && table[k].id == cursor
}

/// A story as a row of the page query.
pub open spec fn labeled(story: StoryView, label: Seq<char>) -> StoryRowView {
    StoryRowView { id: story.id, name: story.name, label }
}

/// Where the page before the one at row `k` starts: `size` rows back, or at
/// the first row where there are fewer.
pub open spec fn prev_start(k: int, size: int) -> int {
    if k >= size {
        k - size
    } else {
        0
    }
}

/// Where the page at row `k` ends: `size` rows on, or with the table.
pub open spec fn page_end(len: int, k: int, size: int) -> int {
    if k + size <= len {
        k + size
    } else {
        len
    }
}

/// The row labeled `prev` for a page at row `k`: none for the first page.
pub open spec fn prev_rows(table: Seq<StoryView>, k: int, size: int) -> Seq<StoryRowView> {
    if k > 0 && size > 0 {
        seq![labeled(table[prev_start(k, size)], "prev"@)]
    } else {
        Seq::empty()
    }
}

/// The rows labeled `current` for a page at row `k`: up to `size` stories
/// from the cursor's on.
pub open spec fn current_rows(table: Seq<StoryView>, k: int, size: int) -> Seq<StoryRowView> {
    Seq::new(
        (page_end(table.len() as int, k, size) - k) as nat,
        |i: int| labeled(table[k + i], "current"@),
    )
}

/// The row labeled `next` for a page at row `k`: the story after the page,
/// and none for the last page.
pub open spec fn next_rows(table: Seq<StoryView>, k: int, size: int) -> Seq<StoryRowView> {
    if k + size < table.len() {
        seq![labeled(table[k + size], "next"@)]
    } else {
        Seq::empty()
    }
}

/// The rows of the page at row `k`, as the query orders them.
pub open spec fn rows_at(table: Seq<StoryView>, k: int, size: int) -> Seq<StoryRowView> {
    prev_rows(table, k, size) + current_rows(table, k, size) + next_rows(table, k, size)
}

/// What the page query returns for `cursor` on `table` with pages of `size`
/// stories: nothing where no story has the cursor for its id, and else the
/// rows of the page at that story.
pub open spec fn window_rows(table: Seq<StoryView>, cursor: i32, size: int) -> Seq<StoryRowView> {
    if exists|k: int| is_cursor_row(table, cursor, k) {
        rows_at(table, choose|k: int| is_cursor_row(table, cursor, k), size)
    } else {
        Seq::empty()
    }
}

/// In a table in ascending order the cursor has one row at most, so the
/// query's rows are those of the page at that row.
pub proof fn lemma_cursor_row_unique(table: Seq<StoryView>, cursor: i32, k: int)
    requires
        ascending(table),
        is_cursor_row(table, cursor, k),
    ensures
        forall|size: int| #[trigger] window_rows(table, cursor, size) == rows_at(table, k, size),
{
    let found = choose|j: int| is_cursor_row(table, cursor, j);
    assert(is_cursor_row(table, cursor, found));
    if found < k {
        assert(table[found].id < table[k].id);
    }
    if k < found {
        assert(table[k].id < table[found].id);
    }
}

/// The story at `at` as a row with the given label.
fn labeled_row(table: &Vec<Story>, at: usize, label: &str) -> (row: StoryRow)
    requires
        at < table.len(),
    ensures
        row@ == labeled(table[at as int]@, label@),
{
    StoryRow { id: table[at].id, name: table[at].name.clone(), label: label.to_owned() }
}

/// Runs the page query on a table held in memory: the rows that it returns
/// for `cursor` with pages of `size` stories. The table stands in the order
/// of its ids.
pub fn select_window(table: &Vec<Story>, cursor: i32, size: usize) -> (rows: Vec<StoryRow>)
    requires
        ascending(story_views(table@)),
    ensures
        row_views(rows@) == window_rows(story_views(table@), cursor, size as int),
{
    let ghost all = story_views(table@);
    let n = table.len();
    let mut k: usize = 0;
    while k < n && table[k].id != cursor
        invariant
            k <= n,
            n == table.len(),
            all == story_views(table@),
            forall|j: int| 0 <= j < k ==> !is_cursor_row(all, cursor, j),
        decreases n - k,
    {
        k = k + 1;
    }
    let mut rows: Vec<StoryRow> = Vec::new();
    if k == n {
        assert(row_views(rows@) =~= window_rows(all, cursor, size as int));
        return rows;
    }
    proof {
        assert(is_cursor_row(all, cursor, k as int));
        lemma_cursor_row_unique(all, cursor, k as int);
    }
    if k > 0 && size > 0 {
        let start = if k >= size {
            k - size
        } else {
            0
        };
        rows.push(labeled_row(table, start, "prev"));
    }
    assert(row_views(rows@) =~= prev_rows(all, k as int, size as int));
    let end = if size <= n - k {
        k + size
    } else {
        n
    };
    assert(end == page_end(n as int, k as int, size as int));
    let ghost head = row_views(rows@);
    let mut i: usize = k;
    while i < end
        invariant
            k <= i <= end <= n,
            n == table.len(),
            all == story_views(table@),
            end == page_end(n as int, k as int, size as int),
            head == prev_rows(all, k as int, size as int),
            row_views(rows@) == head + current_rows(all, k as int, size as int).take(i - k),
        decreases end - i,
    {
        let ghost before = row_views(rows@);
        rows.push(labeled_row(table, i, "current"));
        proof {
            let currents = current_rows(all, k as int, size as int);
            assert(currents.take(i + 1 - k) =~= currents.take(i - k).push(currents[i - k]));
            assert(row_views(rows@) =~= before.push(labeled(all[i as int], "current"@)));
            assert(row_views(rows@) =~= head + currents.take(i + 1 - k));
        }
        i = i + 1;
    }
    proof {
        let currents = current_rows(all, k as int, size as int);
        assert(currents.take(end - k) =~= currents);
    }
    let ghost body = row_views(rows@);
    if end < n && end - k == size {
        rows.push(labeled_row(table, end, "next"));
        assert(row_views(rows@) =~= body.push(labeled(all[end as int], "next"@)));
    }
    assert(row_views(rows@) =~= body + next_rows(all, k as int, size as int));
    rows
}

/// The cursor of the page before the one at row `k`, 0 for none.
pub open spec fn prev_cursor(table: Seq<StoryView>, k: int, size: int) -> i32 {
    if k > 0 && size > 0 {
        table[prev_start(k, size)].id
    } else {
        0
    }
}

/// The cursor of the page after the one at row `k`, 0 for none.
pub open spec fn next_cursor(table: Seq<StoryView>, k: int, size: int) -> i32 {
    if k + size < table.len() {
        table[k + size].id
    } else {
        0
    }
}

/// The first `m` rows of a page, the row labeled `prev` included, sorted by
/// label.
proof fn lemma_page_prefix(table: Seq<StoryView>, k: int, size: int, m: int)
    requires
        0 <= k < table.len(),
        0 <= size,
        0 <= m <= page_end(table.len() as int, k, size) - k,
    ensures
        ({
            let rows = prev_rows(table, k, size) + current_rows(table, k, size).take(m);
            &&& last_labeled(rows, "prev"@) == prev_cursor(table, k, size)
            &&& last_labeled(rows, "next"@) == 0
            &&& current_stories(rows) == table.subrange(k, k + m)
        }),
    decreases m,
{
    lemma_labels_differ();
    let head = prev_rows(table, k, size);
    let currents = current_rows(table, k, size);
    let rows = head + currents.take(m);
    let none = Seq::<StoryRowView>::empty();
    assert(last_labeled(none, "prev"@) == 0 && last_labeled(none, "next"@) == 0);
    assert(current_stories(none) =~= Seq::<StoryView>::empty());
    if m == 0 {
        assert(rows =~= head);
        if head.len() > 0 {
            assert(head.drop_last() =~= none);
        }
        assert(table.subrange(k, k) =~= Seq::<StoryView>::empty());
    } else {
        lemma_page_prefix(table, k, size, m - 1);
        let shorter = head + currents.take(m - 1);
        let story = table[k + m - 1];
        assert(rows.drop_last() =~= shorter);
        assert(rows.last() == labeled(story, "current"@));
        assert(story_of(rows.last()) == story);
        assert(table.subrange(k, k + m) =~= table.subrange(k, k + m - 1).push(story));
    }
}

/// What sorting the query's rows by label comes to, for a cursor that has a
/// row: the cursors of the pages before and after, and the stories from the
/// cursor's on, a page full at most.
pub proof fn lemma_page_of_window(table: Seq<StoryView>, cursor: i32, size: int, k: int)
    requires
        ascending(table),
        is_cursor_row(table, cursor, k),
        0 <= size,
    ensures
        last_labeled(window_rows(table, cursor, size), "prev"@) == prev_cursor(table, k, size),
        last_labeled(window_rows(table, cursor, size), "next"@) == next_cursor(table, k, size),
        current_stories(window_rows(table, cursor, size)) == table.subrange(
            k,
            page_end(table.len() as int, k, size),
        ),
{
    lemma_labels_differ();
    lemma_cursor_row_unique(table, cursor, k);
    let end = page_end(table.len() as int, k, size);
    lemma_page_prefix(table, k, size, end - k);
    let currents = current_rows(table, k, size);
    assert(currents.take(end - k) =~= currents);
    let body = prev_rows(table, k, size) + currents;
    let rows = rows_at(table, k, size);
    if k + size < table.len() {
        assert(rows.drop_last() =~= body);
        assert(rows.last() == labeled(table[k + size], "next"@));
    } else {
        assert(rows =~= body);
    }
}

/// A cursor that no story has for its id gets an empty page without
/// neighbours.
pub proof fn lemma_page_of_missing_cursor(table: Seq<StoryView>, cursor: i32, size: int)
    requires
        forall|k: int| !is_cursor_row(table, cursor, k),
    ensures
        last_labeled(window_rows(table, cursor, size), "prev"@) == 0,
        last_labeled(window_rows(table, cursor, size), "next"@) == 0,
        current_stories(window_rows(table, cursor, size)) == Seq::<StoryView>::empty(),
{
}

/// A page that starts at the table's first story has no page before it:
/// there is no token for a previous page.
pub proof fn lemma_first_page_has_no_prev(
    table: Seq<StoryView>,
    cursor: i32,
    size: int,
    signing_pem: Seq<char>,
    ts: u128,
)
    requires
        ascending(table),
        0 <= size,
        is_cursor_row(table, cursor, 0),
    ensures
        encoded(signing_pem, last_labeled(window_rows(table, cursor, size), "prev"@), ts) is None,
{
    lemma_page_of_window(table, cursor, size, 0);
}

/// A table that one page can hold has no page after it: whatever the cursor,
/// there is no token for a next page.
pub proof fn lemma_last_page_has_no_next(
    table: Seq<StoryView>,
    cursor: i32,
    size: int,
    signing_pem: Seq<char>,
    ts: u128,
)
    requires
        ascending(table),
        table.len() <= size,
    ensures
        encoded(signing_pem, last_labeled(window_rows(table, cursor, size), "next"@), ts) is None,
{
    if exists|k: int| is_cursor_row(table, cursor, k) {
        let k = choose|k: int| is_cursor_row(table, cursor, k);
        lemma_page_of_window(table, cursor, size, k);
    }
}

/// A page that does not start at the table's first story has a page before
/// it: where the ids are positive, as the database gives them out, there is
/// a token for the previous page.
pub proof fn lemma_later_page_has_prev(
    table: Seq<StoryView>,
    cursor: i32,
    size: int,
    k: int,
    signing_pem: Seq<char>,
    ts: u128,
)
    requires
        ascending(table),
        forall|i: int| 0 <= i < table.len() ==> table[i].id > 0,
        is_cursor_row(table, cursor, k),
        k > 0,
        size > 0,
    ensures
        encoded(signing_pem, last_labeled(window_rows(table, cursor, size), "prev"@), ts) is Some,
{
    lemma_page_of_window(table, cursor, size, k);
}

/// The cursor of the previous page is the id of a story that stands before
/// the cursor's: where the ids are positive, it is positive and smaller than
/// the cursor.
pub proof fn lemma_prev_cursor_is_an_earlier_row(
    table: Seq<StoryView>,
    cursor: i32,
    size: int,
    k: int,
)
    requires
        ascending(table),
        forall|i: int| 0 <= i < table.len() ==> table[i].id > 0,
        is_cursor_row(table, cursor, k),
        k > 0,
        size > 0,
    ensures
        ({
            let prev = last_labeled(window_rows(table, cursor, size), "prev"@);
            &&& 0 < prev < cursor
            &&& exists|j: int| 0 <= j < k && #[trigger] table[j].id == prev
        }),
{
    lemma_page_of_window(table, cursor, size, k);
    let j = prev_start(k, size);
    assert(table[j].id < table[k].id);
    assert(table[j].id == prev_cursor(table, k, size));
}

/// The token for the next page names the story behind the page: decoded, it
/// is that story's id, so long as the keys are a pair and the token is at
/// most an hour old.
pub proof fn lemma_next_token_names_next_page(
    table: Seq<StoryView>,
    cursor: i32,
    size: int,
    k: int,
    signing_pem: Seq<char>,
    verifying_pem: Seq<char>,
    ts: u128,
    now: u128,
)
    requires
        ascending(table),
        is_cursor_row(table, cursor, k),
        0 <= size,
        k + size < table.len(),
        table[k + size].id > 0,
        key_pair(signing_pem, verifying_pem),
        fresh(ts, now),
    ensures
        decoded(
            verifying_pem,
            encoded(signing_pem, last_labeled(window_rows(table, cursor, size), "next"@), ts),
            now,
        ) == Some(table[k + size].id),
{
    lemma_page_of_window(table, cursor, size, k);
    lemma_round_trip(signing_pem, verifying_pem, table[k + size].id, ts, now);
}

/// The token for the previous page names the story that the page before
/// starts at: decoded, it is that story's id, so long as the keys are a pair
/// and the token is at most an hour old.
pub proof fn lemma_prev_token_names_prev_page(
    table: Seq<StoryView>,
    cursor: i32,
    size: int,
    k: int,
    signing_pem: Seq<char>,
    verifying_pem: Seq<char>,
    ts: u128,
    now: u128,
)
    requires
        ascending(table),
        is_cursor_row(table, cursor, k),
        k > 0,
        size > 0,
        table[prev_start(k, size)].id > 0,
        key_pair(signing_pem, verifying_pem),
        fresh(ts, now),
    ensures
        decoded(
            verifying_pem,
            encoded(signing_pem, last_labeled(window_rows(table, cursor, size), "prev"@), ts),
            now,
        ) == Some(table[prev_start(k, size)].id),
{
    lemma_page_of_window(table, cursor, size, k);
    lemma_round_trip(signing_pem, verifying_pem, table[prev_start(k, size)].id, ts, now);
}

} // verus!
