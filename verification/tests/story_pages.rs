use base64::engine::general_purpose::STANDARD;
use base64::Engine;
use bb8_todos::api::paging::{Page, PageToken};
use bb8_todos::api::story::{stories_page, stories_page_at, tasks_page, tasks_page_at};
use bb8_todos::db::sql::stories::select_window;
use bb8_todos::domain::{Status, Story, Task};
use bb8_todos::repo::story::{collect_page, StoryRow, PAGE_SIZE};
use bb8_todos::repo::task::next_task_cursor;
use bb8_todos::signer::{Signer, Verifier};

fn key_text(kind: &str, prefix: &[u8], key: &[u8]) -> String {
    let mut der = prefix.to_vec();
    der.extend_from_slice(key);
    format!(
        "-----BEGIN {kind} KEY-----\n{}\n-----END {kind} KEY-----\n",
        STANDARD.encode(der)
    )
}

fn page_signer() -> Signer {
    let seed = [
        0x9d, 0x61, 0xb1, 0x9d, 0xef, 0xfd, 0x5a, 0x60, 0xba, 0x84, 0x4a, 0xf4, 0x92, 0xec, 0x2c,
        0xc4, 0x44, 0x49, 0xc5, 0x69, 0x7b, 0x32, 0x69, 0x19, 0x70, 0x3b, 0xac, 0x03, 0x1c, 0xae,
        0x7f, 0x60,
    ];
    let prefix = [
        0x30, 0x2e, 0x02, 0x01, 0x00, 0x30, 0x05, 0x06, 0x03, 0x2b, 0x65, 0x70, 0x04, 0x22, 0x04,
        0x20,
    ];
    Signer::new(key_text("PRIVATE", &prefix, &seed)).expect("the key of the RFC is a key")
}

fn page_verifying() -> Verifier {
    let key = [
        0xd7, 0x5a, 0x98, 0x01, 0x82, 0xb1, 0x0a, 0xb7, 0xd5, 0x4b, 0xfe, 0xd3, 0xc9, 0x64, 0x07,
        0x3a, 0x0e, 0xe1, 0x72, 0xf3, 0xda, 0xa6, 0x23, 0x25, 0xaf, 0x02, 0x1a, 0x68, 0xf7, 0x07,
        0x51, 0x1a,
    ];
    let prefix = [0x30, 0x2a, 0x30, 0x05, 0x06, 0x03, 0x2b, 0x65, 0x70, 0x03, 0x21, 0x00];
    Verifier::new(key_text("PUBLIC", &prefix, &key)).expect("the key of the RFC is a key")
}

fn table_of(ids: &[i32]) -> Vec<Story> {
    ids.iter().map(|id| Story::new(*id, format!("story {id}"))).collect()
}

fn row(id: i32, label: &str) -> StoryRow {
    StoryRow { id, name: format!("story {id}"), label: label.to_string() }
}

fn shape(rows: &[StoryRow]) -> Vec<(i32, String, String)> {
    rows.iter().map(|r| (r.id, r.name.clone(), r.label.clone())).collect()
}

fn ids_of(stories: &[Story]) -> Vec<i32> {
    stories.iter().map(|s| s.id).collect()
}

fn cursor_of(token: &Option<String>) -> i32 {
    PageToken::decode(&page_verifying(), token.clone()).expect("a token of ours")
}

#[test]
fn page_size_is_one_hundred() {
    assert_eq!(PAGE_SIZE, 100);
}

#[test]
fn window_of_an_empty_table_is_empty() {
    let rows = select_window(&Vec::new(), 1, 2);
    assert!(rows.is_empty());
    let (prev, next, stories) = collect_page(&rows);
    assert_eq!((prev, next, stories.len()), (0, 0, 0));
    let page = stories_page(&page_signer(), &rows);
    assert!(page.prev_page.is_none() && page.next_page.is_none() && page.data.is_empty());
}

#[test]
fn window_from_the_first_row() {
    let rows = select_window(&table_of(&[1, 2, 3]), 1, 2);
    assert_eq!(shape(&rows), shape(&[row(1, "current"), row(2, "current"), row(3, "next")]));
}

#[test]
fn window_from_the_last_row() {
    let rows = select_window(&table_of(&[1, 2, 3]), 3, 2);
    assert_eq!(shape(&rows), shape(&[row(1, "prev"), row(3, "current")]));
}

#[test]
fn window_in_the_middle() {
    let rows = select_window(&table_of(&[2, 3, 5, 7, 11, 13, 17]), 7, 2);
    assert_eq!(
        shape(&rows),
        shape(&[row(3, "prev"), row(7, "current"), row(11, "current"), row(13, "next")])
    );
    let rows = select_window(&table_of(&[2, 3, 5, 7, 11, 13, 17]), 3, 2);
    assert_eq!(
        shape(&rows),
        shape(&[row(2, "prev"), row(3, "current"), row(5, "current"), row(7, "next")])
    );
}

#[test]
fn window_past_the_end_is_empty() {
    let rows = select_window(&table_of(&[1, 2, 3]), 4, 2);
    assert!(rows.is_empty());
}

#[test]
fn window_at_an_id_that_no_row_has_is_empty() {
    let rows = select_window(&table_of(&[1, 2, 4, 5]), 3, 2);
    assert!(rows.is_empty());
    let rows = select_window(&table_of(&[2, 3]), 1, 2);
    assert!(rows.is_empty());
}

#[test]
fn window_of_no_size_has_the_cursor_for_its_next() {
    let rows = select_window(&table_of(&[1, 2, 3]), 2, 0);
    assert_eq!(shape(&rows), shape(&[row(2, "next")]));
}

#[test]
fn window_of_one_hundred() {
    let ids: Vec<i32> = (1..=250).collect();
    let table = table_of(&ids);
    let rows = select_window(&table, 101, PAGE_SIZE);
    assert_eq!(rows.len(), 102);
    let (prev, next, stories) = collect_page(&rows);
    assert_eq!((prev, next), (1, 201));
    assert_eq!(ids_of(&stories), (101..=200).collect::<Vec<i32>>());
    let (prev, next, stories) = collect_page(&select_window(&table, 201, PAGE_SIZE));
    assert_eq!((prev, next), (101, 0));
    assert_eq!(ids_of(&stories), (201..=250).collect::<Vec<i32>>());
    let (prev, next, stories) = collect_page(&select_window(&table, 51, PAGE_SIZE));
    assert_eq!((prev, next), (1, 151));
    assert_eq!(stories.len(), 100);
}

#[test]
fn table_of_one_page_has_no_next_page() {
    for size in [1usize, 2, 3, 7] {
        let ids: Vec<i32> = (1..=size as i32).collect();
        let rows = select_window(&table_of(&ids), 1, size);
        let page = stories_page(&page_signer(), &rows);
        assert_eq!(page.next_page, None);
        assert_eq!(page.prev_page, None);
        assert_eq!(ids_of(&page.data), ids);
    }
}

#[test]
fn page_with_an_earlier_row_has_a_previous_page() {
    let table = table_of(&[1, 2, 3, 4, 5]);
    for cursor in 2..=5 {
        let page = stories_page(&page_signer(), &select_window(&table, cursor, 2));
        assert!(page.prev_page.is_some());
        let expected = if cursor > 2 { cursor - 2 } else { 1 };
        assert_eq!(cursor_of(&page.prev_page), expected);
    }
    let page = stories_page(&page_signer(), &select_window(&table, 1, 2));
    assert!(page.prev_page.is_none());
}

#[test]
fn three_rows_in_pages_of_two() {
    let table = table_of(&[1, 2, 3]);
    let first = stories_page(&page_signer(), &select_window(&table, cursor_of(&None), 2));
    assert_eq!(ids_of(&first.data), vec![1, 2]);
    assert_eq!(first.prev_page, None);
    assert_eq!(cursor_of(&first.next_page), 3);
    let cursor = cursor_of(&first.next_page);
    let second = stories_page(&page_signer(), &select_window(&table, cursor, 2));
    assert_eq!(ids_of(&second.data), vec![3]);
    assert_eq!(second.data[0].name, "story 3");
    assert_eq!(second.next_page, None);
    assert_eq!(cursor_of(&second.prev_page), 1);
}

#[test]
fn rows_are_sorted_by_their_labels() {
    let rows = vec![
        row(4, "prev"),
        row(5, "current"),
        row(6, "current"),
        row(9, "other"),
        row(7, "next"),
    ];
    let (prev, next, stories) = collect_page(&rows);
    assert_eq!((prev, next), (4, 7));
    assert_eq!(ids_of(&stories), vec![5, 6]);
    assert_eq!(stories[1].name, "story 6");
}

#[test]
fn rows_with_a_label_twice_keep_the_last() {
    let rows = vec![row(1, "prev"), row(2, "prev"), row(8, "next"), row(9, "next")];
    let (prev, next, stories) = collect_page(&rows);
    assert_eq!((prev, next, stories.len()), (2, 9, 0));
}

#[test]
fn labels_are_taken_to_the_letter() {
    let rows = vec![row(1, "Prev"), row(2, " current"), row(3, "next ")];
    let (prev, next, stories) = collect_page(&rows);
    assert_eq!((prev, next, stories.len()), (0, 0, 0));
}

#[test]
fn page_tokens_are_those_of_the_cursors() {
    let noon: u128 = 1_700_000_000_000;
    let rows = vec![row(4, "prev"), row(5, "current"), row(7, "next")];
    let page = stories_page_at(&page_signer(), &rows, noon);
    assert_eq!(page.prev_page, PageToken::encode_at(&page_signer(), 4, noon));
    assert_eq!(page.next_page, PageToken::encode_at(&page_signer(), 7, noon));
    assert_eq!(ids_of(&page.data), vec![5]);
    let page = Page::between_at(&page_signer(), 0, -3, vec![1u8, 2], noon);
    assert_eq!((page.prev_page, page.next_page, page.data), (None, None, vec![1u8, 2]));
    let page = Page::new(Some("a".to_string()), None, vec![3u8]);
    assert_eq!((page.prev_page, page.next_page, page.data), (Some("a".to_string()), None, vec![3u8]));
}

#[test]
fn row_with_a_boundary_that_names_no_row_has_no_token() {
    let rows = vec![row(0, "prev"), row(5, "current"), row(-7, "next")];
    let page = stories_page(&page_signer(), &rows);
    assert_eq!((page.prev_page, page.next_page), (None, None));
}

#[test]
fn tasks_go_on_behind_the_last() {
    let tasks = vec![
        Task::new(3, 1, "a".to_string(), Status::Incomplete),
        Task::new(8, 1, "b".to_string(), Status::Complete),
    ];
    assert_eq!(next_task_cursor(&tasks), 9);
    let page = tasks_page(&page_signer(), tasks);
    assert_eq!(page.prev_page, None);
    assert_eq!(cursor_of(&page.next_page), 9);
    assert_eq!(page.data.len(), 2);
    assert_eq!(page.data[1], Task::new(8, 1, "b".to_string(), Status::Complete));
}

#[test]
fn tasks_without_a_way_on() {
    assert_eq!(next_task_cursor(&Vec::new()), 0);
    let page = tasks_page(&page_signer(), Vec::new());
    assert_eq!((page.prev_page, page.next_page, page.data.len()), (None, None, 0));
    let last = vec![Task::new(i32::MAX, 1, "z".to_string(), Status::Incomplete)];
    assert_eq!(next_task_cursor(&last), 0);
    let page = tasks_page_at(&page_signer(), last, 5);
    assert_eq!(page.next_page, None);
    let negative = vec![Task::new(-5, 1, "n".to_string(), Status::Incomplete)];
    assert_eq!(next_task_cursor(&negative), -4);
    assert_eq!(tasks_page_at(&page_signer(), negative, 5).next_page, None);
}

#[test]
fn page_of_tasks_has_the_token_of_the_cursor_behind_it() {
    let tasks = vec![Task::new(3, 1, "a".to_string(), Status::Incomplete)];
    let page = tasks_page_at(&page_signer(), tasks, 77);
    assert_eq!(page.next_page, PageToken::encode_at(&page_signer(), 4, 77));
    assert_ne!(page.next_page, PageToken::encode_at(&page_signer(), 1, 77));
    let rows = vec![row(5, "current"), row(7, "next")];
    let page = stories_page(&page_signer(), &rows);
    assert_eq!(cursor_of(&page.next_page), 7);
}
