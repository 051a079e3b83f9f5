//! What the HTTP layer hands in and out: request bodies, pages and page
//! tokens.

pub mod dto;
pub mod paging;
pub mod story;
pub mod task;
