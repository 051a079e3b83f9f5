//! The things the backend keeps: stories, and the tasks they are made of.

pub mod status;
pub mod story;
pub mod task;

pub use status::Status;
pub use story::Story;
pub use task::Task;
