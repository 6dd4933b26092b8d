//! A task that is still to be done.

use super::super::enums::TaskStatus;
use super::super::traits::{Create, Edit, Get};
use super::base::{Base, Record};
use vstd::prelude::*;

verus! {

/// A task that is still to be done.
#[derive(Debug)]
pub struct Pending {
    pub super_struct: Base,
}

impl Pending {
    /// The record says what the kind says: `PENDING`.
    pub open spec fn well_formed(&self) -> bool {
        self.super_struct.status == TaskStatus::PENDING
    }

    /// The pending task of the given title.
    pub fn new(input_title: &str) -> (task: Pending)
        ensures
            task.super_struct@ == (Record { title: input_title@, status: TaskStatus::PENDING }),
            task.well_formed(),
    {
        let base = Base { title: input_title.to_owned(), status: TaskStatus::PENDING };
        Pending { super_struct: base }
    }
}

impl Get for Pending {
    open spec fn record(&self) -> Record {
        self.super_struct@
    }

    fn get(&self) -> (base: &Base) {
        &self.super_struct
    }
}

impl Edit for Pending {

}

impl Create for Pending {

}

} // verus!
