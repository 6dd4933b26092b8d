use serde_json::{Number, Value};
use todo_list::error::TodoError;
use todo_list::processes::{process_input, Command};
use todo_list::to_do::enums::TaskStatus;
use todo_list::to_do::to_do_factory;

fn state_of(entries: &[(&str, &str)]) -> serde_json::Map<String, Value> {
    let mut state = serde_json::Map::new();
    for (title, status) in entries {
        state.insert(title.to_string(), Value::String(status.to_string()));
    }
    state
}

fn run(
    verb: &str,
    title: &str,
    status: TaskStatus,
    state: &mut serde_json::Map<String, Value>,
) -> Result<(), TodoError> {
    process_input(to_do_factory(title, status), verb.to_string(), state)
}

#[test]
fn command_from_string_reads_the_verbs() {
    assert_eq!(Command::from_string("add".to_string()), Ok(Command::Add));
    assert_eq!(
        Command::from_string("complete".to_string()),
        Ok(Command::Complete)
    );
    assert_eq!(Command::from_string("edit".to_string()), Ok(Command::Edit));
    assert_eq!(Command::from_string("update".to_string()), Ok(Command::Edit));
    assert_eq!(
        Command::from_string("delete".to_string()),
        Ok(Command::Delete)
    );
}

#[test]
fn command_from_string_refuses_other_texts() {
    for verb in ["", "Add", "ADD", "add ", "get", "remove", "create"] {
        assert_eq!(
            Command::from_string(verb.to_string()),
            Err(TodoError::UsageError)
        );
    }
}

#[test]
fn add_tracks_a_new_title_as_pending() {
    let mut state = serde_json::Map::new();
    assert_eq!(run("add", "shopping", TaskStatus::PENDING, &mut state), Ok(()));
    assert_eq!(state, state_of(&[("shopping", "PENDING")]));
}

#[test]
fn add_keeps_the_other_titles() {
    let mut state = state_of(&[("a", "DONE"), ("c", "PENDING")]);
    assert_eq!(run("add", "b", TaskStatus::PENDING, &mut state), Ok(()));
    assert_eq!(
        state,
        state_of(&[("a", "DONE"), ("b", "PENDING"), ("c", "PENDING")])
    );
}

#[test]
fn add_overwrites_a_tracked_title_with_pending() {
    let mut state = state_of(&[("a", "DONE")]);
    assert_eq!(run("add", "a", TaskStatus::DONE, &mut state), Ok(()));
    assert_eq!(state, state_of(&[("a", "PENDING")]));
}

#[test]
fn complete_marks_a_tracked_title_done() {
    let mut state = state_of(&[("shopping", "PENDING")]);
    assert_eq!(
        run("complete", "shopping", TaskStatus::PENDING, &mut state),
        Ok(())
    );
    assert_eq!(state, state_of(&[("shopping", "DONE")]));
}

#[test]
fn complete_of_an_absent_title_is_not_found() {
    let mut state = state_of(&[("shopping", "PENDING")]);
    assert_eq!(
        run("complete", "laundry", TaskStatus::PENDING, &mut state),
        Err(TodoError::NotFound)
    );
    assert_eq!(state, state_of(&[("shopping", "PENDING")]));
}

#[test]
fn complete_twice_leaves_what_once_leaves() {
    let mut once = state_of(&[("a", "PENDING"), ("b", "PENDING")]);
    assert_eq!(run("complete", "a", TaskStatus::PENDING, &mut once), Ok(()));
    let mut twice = once.clone();
    assert_eq!(run("complete", "a", TaskStatus::DONE, &mut twice), Ok(()));
    assert_eq!(twice, once);
    assert_eq!(once, state_of(&[("a", "DONE"), ("b", "PENDING")]));

    let mut absent = state_of(&[("b", "PENDING")]);
    assert_eq!(
        run("complete", "a", TaskStatus::PENDING, &mut absent),
        Err(TodoError::NotFound)
    );
    assert_eq!(
        run("complete", "a", TaskStatus::PENDING, &mut absent),
        Err(TodoError::NotFound)
    );
    assert_eq!(absent, state_of(&[("b", "PENDING")]));
}

#[test]
fn edit_gives_a_pending_task_the_status_done() {
    let mut state = state_of(&[("a", "PENDING")]);
    assert_eq!(run("edit", "a", TaskStatus::PENDING, &mut state), Ok(()));
    assert_eq!(state, state_of(&[("a", "DONE")]));
}

#[test]
fn edit_gives_a_done_task_the_status_pending() {
    let mut state = state_of(&[("a", "DONE")]);
    assert_eq!(run("edit", "a", TaskStatus::DONE, &mut state), Ok(()));
    assert_eq!(state, state_of(&[("a", "PENDING")]));
}

#[test]
fn update_is_another_name_of_edit() {
    let mut state = state_of(&[("a", "DONE"), ("b", "PENDING")]);
    assert_eq!(run("update", "a", TaskStatus::DONE, &mut state), Ok(()));
    assert_eq!(run("update", "b", TaskStatus::PENDING, &mut state), Ok(()));
    assert_eq!(state, state_of(&[("a", "PENDING"), ("b", "DONE")]));
}

#[test]
fn edit_of_an_absent_title_is_not_found() {
    let mut state = state_of(&[("a", "DONE")]);
    assert_eq!(
        run("edit", "b", TaskStatus::PENDING, &mut state),
        Err(TodoError::NotFound)
    );
    assert_eq!(
        run("update", "b", TaskStatus::PENDING, &mut state),
        Err(TodoError::NotFound)
    );
    assert_eq!(state, state_of(&[("a", "DONE")]));
}

#[test]
fn delete_removes_a_tracked_title() {
    let mut state = state_of(&[("a", "DONE"), ("b", "PENDING")]);
    assert_eq!(run("delete", "a", TaskStatus::DONE, &mut state), Ok(()));
    assert_eq!(state, state_of(&[("b", "PENDING")]));
}

#[test]
fn delete_of_an_absent_title_is_not_found() {
    let mut state = state_of(&[("b", "PENDING")]);
    assert_eq!(
        run("delete", "a", TaskStatus::PENDING, &mut state),
        Err(TodoError::NotFound)
    );
    assert_eq!(state, state_of(&[("b", "PENDING")]));
}

#[test]
fn an_unknown_verb_is_a_usage_error() {
    let mut state = state_of(&[("a", "DONE")]);
    for verb in ["", "get", "Add", "remove"] {
        assert_eq!(
            run(verb, "a", TaskStatus::DONE, &mut state),
            Err(TodoError::UsageError)
        );
        assert_eq!(state, state_of(&[("a", "DONE")]));
    }
}

#[test]
fn commands_leave_values_of_other_titles_alone() {
    let mut state = state_of(&[("a", "started")]);
    state.insert("n".to_string(), Value::Number(Number::from(3)));
    assert_eq!(run("add", "b", TaskStatus::PENDING, &mut state), Ok(()));
    let mut expected = state_of(&[("a", "started"), ("b", "PENDING")]);
    expected.insert("n".to_string(), Value::Number(Number::from(3)));
    assert_eq!(state, expected);
}
