//! The commands, and what each does to the state.

use crate::error::TodoError;
use crate::json::{remove_title, state_entries, store_text, Stored};
use crate::state::holds;
use crate::to_do::enums::TaskStatus;
use crate::to_do::structs::base::{Base, Record};
use crate::to_do::traits::{Create, Edit, Get};
use crate::to_do::ItemTypes;
use vstd::prelude::*;

verus! {

/// What a command asks for.
#[derive(Debug, Clone, Copy, PartialEq, Eq, Structural)]
pub enum Command {
    /// Track the title as `PENDING`, whether or not it is tracked already.
    Add,
    /// Mark a tracked title as `DONE`.
    Complete,
    /// Give a tracked title the other status than the task has.
    Edit,
    /// Stop tracking a tracked title.
    Delete,
}

impl Command {
    /// The command that a verb names. The verbs are `add`, `complete`, `edit`
    /// with its other name `update`, and `delete`, in lower case.
    pub open spec fn named(verb: Seq<char>) -> Option<Command> {
        if verb == "add"@ {
            Some(Command::Add)
        } else if verb == "complete"@ {
            Some(Command::Complete)
        } else if verb == "edit"@ || verb == "update"@ {
            Some(Command::Edit)
        } else if verb == "delete"@ {
            Some(Command::Delete)
        } else {
            None
        }
    }

    /// Reads a command from its verb. A text that is no verb is a `UsageError`.
    pub fn from_string(verb: String) -> (command: Result<Command, TodoError>)
        ensures
            match Command::named(verb@) {
                Some(named) => command == Ok::<Command, TodoError>(named),
                None => command == Err::<Command, TodoError>(TodoError::UsageError),
            },
    {
        if verb == "add".to_owned() {
            Ok(Command::Add)
        } else if verb == "complete".to_owned() {
            Ok(Command::Complete)
        } else if verb == "edit".to_owned() || verb == "update".to_owned() {
            Ok(Command::Edit)
        } else if verb == "delete".to_owned() {
            Ok(Command::Delete)
        } else {
            Err(TodoError::UsageError)
        }
    }
}

/// Each verb names its command, and `update` names what `edit` names.
pub proof fn verbs_name_their_commands()
    ensures
        Command::named("add"@) == Some(Command::Add),
        Command::named("complete"@) == Some(Command::Complete),
        Command::named("edit"@) == Some(Command::Edit),
        Command::named("update"@) == Some(Command::Edit),
        Command::named("delete"@) == Some(Command::Delete),
{
    reveal_strlit("add");
    reveal_strlit("complete");
    reveal_strlit("edit");
    reveal_strlit("update");
    reveal_strlit("delete");
    assert("add"@.len() == 3);
    assert("complete"@.len() == 8);
    assert("edit"@.len() == 4);
    assert("update"@.len() == 6);
    assert("delete"@.len() == 6);
    assert("update"@[0] == 'u');
    assert("delete"@[0] == 'd');
}

/// The entries that a command makes of the given ones, for the task with the
/// given record. `complete`, `edit` and `delete` are for a title that the
/// entries hold, and are refused as `NotFound` for any other.
pub open spec fn applied(command: Command, task: Record, entries: Map<Seq<char>, Stored>) -> Result<
    Map<Seq<char>, Stored>,
    TodoError,
> {
    match command {
        Command::Add => Ok(entries.insert(task.title, Stored::Text(TaskStatus::PENDING.name()))),
        Command::Complete => if entries.contains_key(task.title) {
            Ok(entries.insert(task.title, Stored::Text(TaskStatus::DONE.name())))
        } else {
            Err(TodoError::NotFound)
        },
        Command::Edit => if entries.contains_key(task.title) {
            Ok(entries.insert(task.title, Stored::Text(task.status.flipped().name())))
        } else {
            Err(TodoError::NotFound)
        },
        Command::Delete => if entries.contains_key(task.title) {
            Ok(entries.remove(task.title))
        } else {
            Err(TodoError::NotFound)
        },
    }
}

/// The entries that a command leaves: those that it makes, or the given ones
/// where it is refused.
pub open spec fn left_by(command: Command, task: Record, entries: Map<Seq<char>, Stored>) -> Map<
    Seq<char>,
    Stored,
> {
    match applied(command, task, entries) {
        Ok(made) => made,
        Err(_) => entries,
    }
}

/// Puts a record into the state: its title, with the name of its status.
fn store(state: &mut serde_json::Map<String, serde_json::Value>, record: &Base)
    ensures
        state_entries(*final(state)) == state_entries(*old(state)).insert(
            record@.title,
            Stored::Text(record@.status.name()),
        ),
{
    store_text(state, record.title.clone(), record.status.stringify());
}

/// Carries out a command for a task of any kind.
fn process<T: Get + Edit + Create>(
    item: &T,
    command: Command,
    state: &mut serde_json::Map<String, serde_json::Value>,
) -> (done: Result<(), TodoError>)
    ensures
        match applied(command, item.record(), state_entries(*old(state))) {
            Ok(made) => done is Ok && state_entries(*final(state)) == made,
            Err(error) => done == Err::<(), TodoError>(error) && *final(state) == *old(state),
        },
{
    let title = item.get().title.as_str();
    match command {
        Command::Add => {
            let record = item.create(title, None);
            store(state, &record);
            Ok(())
        },
        Command::Complete => {
            if holds(state, title) {
                let record = item.edit(TaskStatus::DONE);
                store(state, &record);
                Ok(())
            } else {
                Err(TodoError::NotFound)
            }
        },
        Command::Edit => {
            if holds(state, title) {
                let record = item.edit(item.get().status.toggled());
                store(state, &record);
                Ok(())
            } else {
                Err(TodoError::NotFound)
            }
        },
        Command::Delete => {
            if holds(state, title) {
                remove_title(state, title);
                Ok(())
            } else {
                Err(TodoError::NotFound)
            }
        },
    }
}

/// Carries out the command that the verb names, for the given task, on the
/// state. A text that is no verb is a `UsageError`. Where the command is
/// refused the state is left as it was.
pub fn process_input(
    item: ItemTypes,
    command: String,
    state: &mut serde_json::Map<String, serde_json::Value>,
) -> (done: Result<(), TodoError>)
    ensures
        match Command::named(command@) {
            None => done == Err::<(), TodoError>(TodoError::UsageError) && *final(state) == *old(
                state,
            ),
            Some(named) => match applied(named, item.record(), state_entries(*old(state))) {
                Ok(made) => done is Ok && state_entries(*final(state)) == made,
                Err(error) => done == Err::<(), TodoError>(error) && *final(state) == *old(state),
            },
        },
{
    match Command::from_string(command) {
        Err(error) => Err(error),
        Ok(named) => match item {
            ItemTypes::Pending(task) => process(&task, named, state),
            ItemTypes::Done(task) => process(&task, named, state),
        },
    }
}

/// To complete a title twice leaves what completing it once leaves, whatever
/// status the task is taken to have each time.
pub proof fn complete_twice_is_complete_once(
    first: Record,
    second: Record,
    entries: Map<Seq<char>, Stored>,
)
    requires
        first.title == second.title,
    ensures
        left_by(Command::Complete, second, left_by(Command::Complete, first, entries)) == left_by(
            Command::Complete,
            first,
            entries,
        ),
{
    let once = left_by(Command::Complete, first, entries);
    assert(left_by(Command::Complete, second, once) =~= once);
}

} // verus!
