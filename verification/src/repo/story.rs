//! Pages of stories. One query returns the rows of a page together with the
//! row that the page before starts at and the row that the page after starts
//! at, each row with a label that says which of the three it is.

use vstd::prelude::*;
use crate::domain::story::{Story, StoryView};
use crate::error::{Error, ErrorView};
use crate::text::{decimal, decimal_text};

verus! {

/// How many stories a page holds.
pub const PAGE_SIZE: usize = 100;

/// One row of the page query: a story and its label.
#[derive(Debug)]
pub struct StoryRow {
    pub id: i32,
    pub name: String,
    pub label: String,
}

/// A row as a value.
pub struct StoryRowView {
    pub id: i32,
    pub name: Seq<char>,
    pub label: Seq<char>,
}

impl View for StoryRow {
    type V = StoryRowView;

    open spec fn view(&self) -> StoryRowView {
        StoryRowView { id: self.id, name: self.name@, label: self.label@ }
    }
}

/// The rows of a vector as values.
pub open spec fn row_views(rows: Seq<StoryRow>) -> Seq<StoryRowView> {
    Seq::new(rows.len(), |i: int| rows[i]@)
}

/// The stories of a vector as values.
pub open spec fn story_views(stories: Seq<Story>) -> Seq<StoryView> {
    Seq::new(stories.len(), |i: int| stories[i]@)
}

/// The story in a row.
pub open spec fn story_of(row: StoryRowView) -> StoryView {
    StoryView { id: row.id, name: row.name }
}

/// The id of the last row with the given label, and 0 where no row has it.
pub open spec fn last_labeled(rows: Seq<StoryRowView>, label: Seq<char>) -> i32
    decreases rows.len(),
{
    if rows.len() == 0 {
        0
    } else if rows.last().label == label {
        rows.last().id
    } else {
        last_labeled(rows.drop_last(), label)
    }
}

/// The stories of the rows labeled `current`, in the order of the rows.
pub open spec fn current_stories(rows: Seq<StoryRowView>) -> Seq<StoryView>
    decreases rows.len(),
{
    if rows.len() == 0 {
        Seq::empty()
    } else if rows.last().label == "current"@ {
        current_stories(rows.drop_last()).push(story_of(rows.last()))
    } else {
        current_stories(rows.drop_last())
    }
}

/// The three labels are three different words.
pub proof fn lemma_labels_differ()
    ensures
        "prev"@ != "current"@,
        "next"@ != "current"@,
        "prev"@ != "next"@,
{
    reveal_strlit("prev");
    reveal_strlit("current");
    reveal_strlit("next");
    assert("prev"@.len() == 4 && "next"@.len() == 4 && "current"@.len() == 7);
    assert("prev"@[0] == 'p' && "next"@[0] == 'n');
}

/// Sorts the rows of a page query by label: the cursor of the page before,
/// the cursor of the page after, and the stories of the page itself in the
/// order they came. A cursor is 0 where no row carries its label; a row with
/// any other label is passed over.
pub fn collect_page(rows: &Vec<StoryRow>) -> (page: (i32, i32, Vec<Story>))
    ensures
        page.0 == last_labeled(row_views(rows@), "prev"@),
        page.1 == last_labeled(row_views(rows@), "next"@),
        story_views(page.2@) == current_stories(row_views(rows@)),
{
    let mut prev_pid: i32 = 0;
    let mut next_pid: i32 = 0;
    let mut stories: Vec<Story> = Vec::new();
    let ghost all = row_views(rows@);
    proof {
        lemma_labels_differ();
    }
    let current = "current".to_owned();
    let prev = "prev".to_owned();
    let next = "next".to_owned();
    let mut i: usize = 0;
    while i < rows.len()
        invariant
            i <= rows.len(),
            current@ == "current"@,
            prev@ == "prev"@,
            next@ == "next"@,
            all == row_views(rows@),
            "prev"@ != "current"@,
            "next"@ != "current"@,
            "prev"@ != "next"@,
            prev_pid == last_labeled(all.take(i as int), "prev"@),
            next_pid == last_labeled(all.take(i as int), "next"@),
            story_views(stories@) == current_stories(all.take(i as int)),
        decreases rows.len() - i,
    {
        let row = &rows[i];
        proof {
            assert(all.take(i + 1).drop_last() =~= all.take(i as int));
            assert(all.take(i + 1).last() == row@);
        }
        let ghost before = story_views(stories@);
        if row.label == current {
            stories.push(Story::new(row.id, row.name.clone()));
            assert(story_views(stories@) =~= before.push(story_of(row@)));
        } else if row.label == prev {
            prev_pid = row.id;
        } else if row.label == next {
            next_pid = row.id;
        }
        i = i + 1;
    }
    assert(all.take(rows.len() as int) =~= all);
    (prev_pid, next_pid, stories)
}

/// The story that a lookup by id found, or the error for one that is not
/// there.
pub fn found_story(id: i32, row: Option<(i32, String)>) -> (found: Result<Story, Error>)
    ensures
        match row {
            Some((row_id, name)) => found is Ok && found->Ok_0@ == (StoryView {
                id: row_id,
                name: name@,
            }),
            None => found is Err && found->Err_0@ == (ErrorView::NotFound {
                message: "story not found: "@ + decimal(id as int),
            }),
        },
{
    match row {
        Some((row_id, name)) => Ok(Story::new(row_id, name)),
        None => {
            let number = decimal_text(id);
            Err(Error::not_found("story not found: ".to_owned().concat(number.as_str())))
        },
    }
}

/// The story that an insert made, given the id that the database returned
/// for it, or the error for an insert that returned none.
pub fn inserted_story(name: String, id: Option<i32>) -> (made: Result<Story, Error>)
    ensures
        match id {
            Some(id) => made is Ok && made->Ok_0@ == (StoryView { id, name: name@ }),
            None => made is Err && made->Err_0@ == (ErrorView::Internal {
                message: "failed to insert story: "@ + name@,
            }),
        },
{
    match id {
        Some(id) => Ok(Story::new(id, name)),
        None => Err(
            Error::internal("failed to insert story: ".to_owned().concat(name.as_str())),
        ),
    }
}

/// The story as an update left it, given how many rows the update changed,
/// or the error for an update that changed none.
pub fn updated_story(id: i32, name: String, num_rows: u64) -> (changed: Result<Story, Error>)
    ensures
        num_rows > 0 ==> changed is Ok && changed->Ok_0@ == (StoryView { id, name: name@ }),
        num_rows == 0 ==> changed is Err && changed->Err_0@ == (ErrorView::Internal {
            message: "unable to update story"@,
        }),
{
    if num_rows > 0 {
        Ok(Story::new(id, name))
    } else {
        Err(Error::internal("unable to update story".to_owned()))
    }
}

/// How many rows deleting a story took with it: its tasks and itself.
pub fn deleted_rows(num_tasks: u64, num_stories: u64) -> (total: u64)
    requires
        num_tasks + num_stories <= u64::MAX,
    ensures
        total == num_tasks + num_stories,
{
    num_tasks + num_stories
}

} // verus!
