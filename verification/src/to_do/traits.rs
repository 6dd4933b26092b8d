//! What can be done with a task, whatever its kind.

use super::enums::TaskStatus;
use super::structs::base::{Base, Record};
use vstd::prelude::*;

verus! {

/// The record that `create` makes: the given title, with the given status or,
/// where none is given, `PENDING`.
pub open spec fn created(title: Seq<char>, status: Option<TaskStatus>) -> Record {
    Record {
        title,
        status: match status {
            Some(given) => given,
            None => TaskStatus::PENDING,
        },
    }
}

/// A task can be read.
pub trait Get {
    /// The record that the task wraps.
    spec fn record(&self) -> Record;

    /// The record of the task, to read its title and its status.
    fn get(&self) -> (base: &Base)
        ensures
            base@ == self.record(),
    ;
}

/// A task can be given another status.
pub trait Edit: Get {
    /// A record with the same title as the task, and the given status.
    fn edit(&self, status: TaskStatus) -> (base: Base)
        ensures
            base@ == (Record { title: self.record().title, status }),
    {
        Base::new(self.get().title.as_str(), status)
    }
}

/// A task can make the record of a title that is not tracked yet.
pub trait Create {
    /// A record for the given title. Its status is `PENDING` unless another is
    /// given.
    fn create(&self, title: &str, status: Option<TaskStatus>) -> (base: Base)
        ensures
            base@ == created(title@, status),
    {
        match status {
            Some(given) => Base::new(title, given),
            None => Base::new(title, TaskStatus::PENDING),
        }
    }
}

} // verus!
