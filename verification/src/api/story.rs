//! What the story routes decide.

use vstd::prelude::*;
use crate::api::paging::{encoded, text_of, Page};
use crate::domain::story::Story;
use crate::domain::task::Task;
use crate::error::Error;
use crate::repo::story::{
    collect_page, current_stories, last_labeled, row_views, story_views, StoryRow,
};
use crate::repo::task::{cursor_after, next_task_cursor};
use crate::signer::Signer;

verus! {

/// The status that answers a request to delete a story: 204 where rows
/// went, and 404 where none did or the delete failed.
pub fn delete_story_status(outcome: &Result<u64, Error>) -> (code: u16)
    ensures
        code == (match *outcome {
            Ok(num_rows) => if num_rows > 0 {
                204u16
            } else {
                404u16
            },
            Err(_) => 404u16,
        }),
{
    if let Ok(num_rows) = outcome {
        if *num_rows > 0 {
            return 204;
        }
    }
    404
}

/// The page of stories that the rows of a page query make, with tokens
/// issued at `ts`: the rows labeled `current` are its stories, and the rows
/// labeled `prev` and `next` give the cursors of its neighbours.
pub fn stories_page_at(signer: &Signer, rows: &Vec<StoryRow>, ts: u128) -> (page: Page<Story>)
    ensures
        text_of(page.prev_page) == encoded(
            signer@,
            last_labeled(row_views(rows@), "prev"@),
            ts,
        ),
        text_of(page.next_page) == encoded(
            signer@,
            last_labeled(row_views(rows@), "next"@),
            ts,
        ),
        story_views(page.data@) == current_stories(row_views(rows@)),
{
    let (prev, next, data) = collect_page(rows);
    Page::between_at(signer, prev, next, data, ts)
}

/// The page of stories that the rows of a page query make, with tokens
/// issued now. A neighbour has a token exactly if a row names it by a
/// positive id.
pub fn stories_page(signer: &Signer, rows: &Vec<StoryRow>) -> (page: Page<Story>)
    ensures
        page.prev_page is None <==> last_labeled(row_views(rows@), "prev"@) <= 0,
        page.next_page is None <==> last_labeled(row_views(rows@), "next"@) <= 0,
        exists|ts: u128|
            {
                &&& text_of(page.prev_page) == #[trigger] encoded(
                    signer@,
                    last_labeled(row_views(rows@), "prev"@),
                    ts,
                )
                &&& text_of(page.next_page) == encoded(
                    signer@,
                    last_labeled(row_views(rows@), "next"@),
                    ts,
                )
            },
        story_views(page.data@) == current_stories(row_views(rows@)),
{
    let (prev, next, data) = collect_page(rows);
    Page::between(signer, prev, next, data)
}

/// The page that a list of tasks makes, with a token issued at `ts`: there
/// is no way back, and the way on starts behind the last task.
pub fn tasks_page_at(signer: &Signer, data: Vec<Task>, ts: u128) -> (page: Page<Task>)
    ensures
        page.prev_page is None,
        text_of(page.next_page) == encoded(signer@, cursor_after(data@) as i32, ts),
        page.data == data,
{
    let next = next_task_cursor(&data);
    Page::between_at(signer, 0, next, data, ts)
}

/// The page that a list of tasks makes, with a token issued now. Only an
/// empty list, or one that ends at the largest id, has no next page.
pub fn tasks_page(signer: &Signer, data: Vec<Task>) -> (page: Page<Task>)
    ensures
        page.prev_page is None,
        page.next_page is None <==> cursor_after(data@) <= 0,
        exists|ts: u128|
            text_of(page.next_page) == #[trigger] encoded(
                signer@,
                cursor_after(data@) as i32,
                ts,
            ),
        page.data == data,
{
    let next = next_task_cursor(&data);
    let ghost tasks = data@;
    let page = Page::between(signer, 0, next, data);
    proof {
        let ts = choose|ts: u128|
            {
                &&& text_of(page.prev_page) == #[trigger] encoded(signer@, 0, ts)
                &&& text_of(page.next_page) == encoded(signer@, next, ts)
            };
        assert(cursor_after(tasks) as i32 == next);
        assert(text_of(page.next_page) == encoded(signer@, cursor_after(tasks) as i32, ts));
    }
    page
}

} // verus!
