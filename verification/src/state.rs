//! The state: reading it, writing it, and what it says of a title.

use crate::error::TodoError;
use crate::json::{json_object, json_text, state_entries, Stored};
use crate::json::{parse_object, stored_text, write_object};
use crate::text::{to_upper, uppercase};
use crate::to_do::enums::TaskStatus;
use vstd::prelude::*;

verus! {

/// The characters of what was read, if anything was.
pub open spec fn characters(contents: Option<&str>) -> Option<Seq<char>> {
    match contents {
        Some(text) => Some(text@),
        None => None,
    }
}

/// The entries that are read from the contents of the state file: the entries
/// of the JSON object that the contents spell out. It is an `IOError` to have
/// no contents and a `ParseError` to have contents that are not one JSON
/// object.
pub open spec fn entries_read(contents: Option<Seq<char>>) -> Result<
    Map<Seq<char>, Stored>,
    TodoError,
> {
    match contents {
        None => Err(TodoError::IOError),
        Some(text) => match json_object(text) {
            None => Err(TodoError::ParseError),
            Some(entries) => Ok(entries),
        },
    }
}

/// The status that the entries give for a title. A title that they do not
/// hold is `PENDING`. One that they hold has the status that its string names
/// once put in upper case; a value that is no string names none.
pub open spec fn status_in(entries: Map<Seq<char>, Stored>, title: Seq<char>) -> Result<
    TaskStatus,
    TodoError,
> {
    if entries.contains_key(title) {
        match entries[title] {
            Stored::Text(text) => TaskStatus::named(uppercase(text)),
            Stored::Other(_) => Err(TodoError::UnsupportedStatus),
        }
    } else {
        Ok(TaskStatus::PENDING)
    }
}

/// Reads the state from the contents of its file. `contents` is `None` where
/// the file could not be opened or read.
pub fn read_state(contents: Option<&str>) -> (state: Result<
    serde_json::Map<String, serde_json::Value>,
    TodoError,
>)
    ensures
        match state {
            Ok(read) => entries_read(characters(contents)) == Ok::<_, TodoError>(
                state_entries(read),
            ),
            Err(error) => entries_read(characters(contents)) == Err::<
                Map<Seq<char>, Stored>,
                _,
            >(error),
        },
{
    match contents {
        None => Err(TodoError::IOError),
        Some(text) => match parse_object(text) {
            Ok(read) => Ok(read),
            Err(_) => Err(TodoError::ParseError),
        },
    }
}

/// Writes the state out as the text that its file is to hold: one JSON
/// object, in compact form.
pub fn write_state(state: &serde_json::Map<String, serde_json::Value>) -> (text: String)
    ensures
        text@ == json_text(state_entries(*state)),
{
    write_object(state)
}

/// Whether the state holds the title.
pub fn holds(state: &serde_json::Map<String, serde_json::Value>, title: &str) -> (held: bool)
    ensures
        held == state_entries(*state).contains_key(title@),
{
    stored_text(state, title).is_some()
}

/// The status that the state gives for a title.
pub fn current_status(state: &serde_json::Map<String, serde_json::Value>, title: &str) -> (status:
    Result<TaskStatus, TodoError>)
    ensures
        status == status_in(state_entries(*state), title@),
{
    match stored_text(state, title) {
        None => Ok(TaskStatus::PENDING),
        Some(None) => Err(TodoError::UnsupportedStatus),
        Some(Some(text)) => TaskStatus::from_string(to_upper(text)),
    }
}

} // verus!
