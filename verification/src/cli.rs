//! One run of the program: from the arguments and the contents of the state
//! file to the contents that the file is to have.

use crate::error::TodoError;
use crate::json::json_text;
use crate::processes::{applied, process_input, Command};
use crate::state::{characters, current_status, entries_read, read_state, status_in, write_state};
use crate::to_do::structs::base::Record;
use crate::to_do::to_do_factory;
use vstd::prelude::*;

verus! {

/// The verb and the title that the arguments give. The arguments are the
/// program's name, the verb and the title, and nothing else.
pub fn parse_args(args: &Vec<String>) -> (parsed: Result<(String, String), TodoError>)
    ensures
        match parsed {
            Ok((command, title)) => args.len() == 3 && command@ == args[1]@ && title@ == args[2]@,
            Err(error) => args.len() != 3 && error == TodoError::UsageError,
        },
{
    if args.len() == 3 {
        Ok((args[1].clone(), args[2].clone()))
    } else {
        Err(TodoError::UsageError)
    }
}

/// What a run comes to: the text that the state file is to hold afterwards,
/// or the reason why the file is left as it is.
///
/// The contents are read first, so contents that cannot be read fail every
/// command alike. Then the status of the title is taken from what was read,
/// and the command is carried out for the task of that title and status.
pub open spec fn outcome(command: Seq<char>, title: Seq<char>, contents: Option<Seq<char>>) -> Result<
    Seq<char>,
    TodoError,
> {
    match entries_read(contents) {
        Err(error) => Err(error),
        Ok(entries) => match status_in(entries, title) {
            Err(error) => Err(error),
            Ok(status) => match Command::named(command) {
                None => Err(TodoError::UsageError),
                Some(named) => match applied(named, Record { title, status }, entries) {
                    Err(error) => Err(error),
                    Ok(made) => Ok(json_text(made)),
                },
            },
        },
    }
}

/// Runs a command on the contents of the state file. `contents` is `None`
/// where the file could not be opened or read. The result is the text to
/// write to the file; on an error nothing is to be written.
pub fn run_command(command: &str, title: &str, contents: Option<&str>) -> (written: Result<
    String,
    TodoError,
>)
    ensures
        match written {
            Ok(text) => outcome(command@, title@, characters(contents)) == Ok::<_, TodoError>(
                text@,
            ),
            Err(error) => outcome(command@, title@, characters(contents)) == Err::<Seq<char>, _>(
                error,
            ),
        },
{
    let mut state = match read_state(contents) {
        Ok(read) => read,
        Err(error) => { return Err(error); },
    };
    let status = match current_status(&state, title) {
        Ok(found) => found,
        Err(error) => { return Err(error); },
    };
    let item = to_do_factory(title, status);
    match process_input(item, command.to_owned(), &mut state) {
        Ok(()) => Ok(write_state(&state)),
        Err(error) => Err(error),
    }
}

} // verus!
