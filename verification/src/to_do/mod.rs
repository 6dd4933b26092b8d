//! Tasks: their status, their record, and the two kinds of task.

pub mod enums;
pub mod structs;
pub mod traits;

use enums::TaskStatus;
use structs::base::Record;
use structs::done::Done;
use structs::pending::Pending;
use vstd::prelude::*;

verus! {

/// A task of either kind.
#[derive(Debug)]
pub enum ItemTypes {
    Pending(Pending),
    Done(Done),
}

impl ItemTypes {
    /// The record that the task wraps.
    pub open spec fn record(&self) -> Record {
        match self {
            ItemTypes::Pending(task) => task.super_struct@,
            ItemTypes::Done(task) => task.super_struct@,
        }
    }

    /// The kind of the task and the status in its record agree.
    pub open spec fn well_formed(&self) -> bool {
        match self {
            ItemTypes::Pending(task) => task.well_formed(),
            ItemTypes::Done(task) => task.well_formed(),
        }
    }
}

/// The task of the given title and status: a done task where the status is
/// `DONE`, a pending task where it is `PENDING`.
pub fn to_do_factory(title: &str, status: TaskStatus) -> (item: ItemTypes)
    ensures
        item.record() == (Record { title: title@, status }),
        (item is Done) <==> status == TaskStatus::DONE,
        (item is Pending) <==> status == TaskStatus::PENDING,
        item.well_formed(),
{
    match status {
        TaskStatus::DONE => ItemTypes::Done(Done::new(title)),
        TaskStatus::PENDING => ItemTypes::Pending(Pending::new(title)),
    }
}

} // verus!
