//! The status of a task.

use crate::error::TodoError;
use vstd::prelude::*;

verus! {

/// Whether a task is still to be done.
#[derive(Debug, Clone, Copy, PartialEq, Eq, Structural)]
pub enum TaskStatus {
    DONE,
    PENDING,
}

impl TaskStatus {
    /// The name of a status, as it is stored.
    pub open spec fn name(self) -> Seq<char> {
        match self {
            TaskStatus::DONE => "DONE"@,
            TaskStatus::PENDING => "PENDING"@,
        }
    }

    /// The status that a text names: the text must be one of the two names,
    /// letter for letter.
    pub open spec fn named(text: Seq<char>) -> Result<TaskStatus, TodoError> {
        if text == TaskStatus::DONE.name() {
            Ok(TaskStatus::DONE)
        } else if text == TaskStatus::PENDING.name() {
            Ok(TaskStatus::PENDING)
        } else {
            Err(TodoError::UnsupportedStatus)
        }
    }

    /// The other status.
    pub open spec fn flipped(self) -> TaskStatus {
        match self {
            TaskStatus::DONE => TaskStatus::PENDING,
            TaskStatus::PENDING => TaskStatus::DONE,
        }
    }

    /// Writes the status out as its name.
    pub fn stringify(&self) -> (text: String)
        ensures
            text@ == self.name(),
    {
        match self {
            TaskStatus::DONE => "DONE".to_owned(),
            TaskStatus::PENDING => "PENDING".to_owned(),
        }
    }

    /// Reads a status from its name. Any other text is refused.
    pub fn from_string(input_string: String) -> (status: Result<TaskStatus, TodoError>)
        ensures
            status == TaskStatus::named(input_string@),
    {
        if input_string == "DONE".to_owned() {
            Ok(TaskStatus::DONE)
        } else if input_string == "PENDING".to_owned() {
            Ok(TaskStatus::PENDING)
        } else {
            Err(TodoError::UnsupportedStatus)
        }
    }

    /// Turns `PENDING` into `DONE` and `DONE` into `PENDING`.
    pub fn toggled(&self) -> (status: TaskStatus)
        ensures
            status == self.flipped(),
    {
        match self {
            TaskStatus::DONE => TaskStatus::PENDING,
            TaskStatus::PENDING => TaskStatus::DONE,
        }
    }
}

/// The two names differ, and each has the letters it shows.
pub proof fn names_are_distinct()
    ensures
        TaskStatus::DONE.name() != TaskStatus::PENDING.name(),
        TaskStatus::DONE.name().len() == 4,
        TaskStatus::PENDING.name().len() == 7,
{
    reveal_strlit("DONE");
    reveal_strlit("PENDING");
    assert("DONE"@.len() == 4);
    assert("PENDING"@.len() == 7);
}

/// Writing a status out and reading it back gives the same status.
pub proof fn stringify_then_from_string(status: TaskStatus)
    ensures
        TaskStatus::named(status.name()) == Ok::<TaskStatus, TodoError>(status),
{
    names_are_distinct();
}

/// A text is read as a status exactly when it is the name of one, and then as
/// that one; every other text is an unsupported status.
pub proof fn from_string_accepts_names_only(text: Seq<char>)
    ensures
        TaskStatus::named(text) is Ok <==> (text == TaskStatus::DONE.name() || text
            == TaskStatus::PENDING.name()),
        TaskStatus::named(text) matches Ok(status) ==> status.name() == text,
        TaskStatus::named(text) is Err ==> TaskStatus::named(text) == Err::<TaskStatus, TodoError>(
            TodoError::UnsupportedStatus,
        ),
{
}

} // verus!
