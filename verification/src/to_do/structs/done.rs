//! A task that has been done.

use super::super::enums::TaskStatus;
use super::super::traits::{Create, Edit, Get};
use super::base::{Base, Record};
use vstd::prelude::*;

verus! {

/// A task that has been done.
#[derive(Debug)]
pub struct Done {
    pub super_struct: Base,
}

impl Done {
    /// The record says what the kind says: `DONE`.
    pub open spec fn well_formed(&self) -> bool {
        self.super_struct.status == TaskStatus::DONE
    }

    /// The done task of the given title.
    pub fn new(input_title: &str) -> (task: Done)
        ensures
            task.super_struct@ == (Record { title: input_title@, status: TaskStatus::DONE }),
            task.well_formed(),
    {
        let base = Base { title: input_title.to_owned(), status: TaskStatus::DONE };
        Done { super_struct: base }
    }
}

impl Get for Done {
    open spec fn record(&self) -> Record {
        self.super_struct@
    }

    fn get(&self) -> (base: &Base) {
        &self.super_struct
    }
}

impl Edit for Done {

}

impl Create for Done {

}

} // verus!
