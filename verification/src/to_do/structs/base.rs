//! The record that every task shares.

use super::super::enums::TaskStatus;
use vstd::prelude::*;

verus! {

/// A task as the contracts see it: the characters of its title, and its status.
pub struct Record {
    pub title: Seq<char>,
    pub status: TaskStatus,
}

/// A title with a status. The title identifies the task.
#[derive(Debug)]
pub struct Base {
    pub title: String,
    pub status: TaskStatus,
}

impl View for Base {
    type V = Record;

    open spec fn view(&self) -> Record {
        Record { title: self.title@, status: self.status }
    }
}

impl Base {
    /// The record of the given title and status. Every title is taken as it
    /// is, the empty one too.
    pub fn new(input_title: &str, input_status: TaskStatus) -> (base: Base)
        ensures
            base@ == (Record { title: input_title@, status: input_status }),
    {
        Base { title: input_title.to_owned(), status: input_status }
    }
}

} // verus!
