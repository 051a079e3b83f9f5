//! Stories.

use vstd::prelude::*;

verus! {

/// A story is something that needs to be done; comprised of a set of tasks.
#[derive(Debug, PartialEq, Eq, PartialOrd, Ord, Hash)]
pub struct Story {
    pub id: i32,
    pub name: String,
}

/// A story as a value: its id and the characters of its name.
pub struct StoryView {
    pub id: i32,
    pub name: Seq<char>,
}

impl View for Story {
    type V = StoryView;

    open spec fn view(&self) -> StoryView {
        StoryView { id: self.id, name: self.name@ }
    }
}

impl Story {
    /// Create a new story
    pub fn new(id: i32, name: String) -> (story: Story)
        ensures
            story@ == (StoryView { id, name: name@ }),
    {
        Self { id, name }
    }
}

} // verus!
