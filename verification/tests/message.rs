use todo_list::message::{added, edited, marked, removed};
use todo_list::TodoError;

#[test]
fn added_message_names_the_task() {
    assert_eq!(added("buy milk"), "Added: buy milk");
    assert_eq!(added(""), "Added: ");
    assert_eq!(added("caf\u{e9}"), "Added: caf\u{e9}");
}

#[test]
fn marked_message_names_the_index() {
    assert_eq!(marked(1, true), "Marked task 1 as done");
    assert_eq!(marked(1, false), "Marked task 1 as undone");
    assert_eq!(marked(27, true), "Marked task 27 as done");
    assert_eq!(marked(300, false), "Marked task 300 as undone");
}

#[test]
fn removed_message_names_the_index() {
    assert_eq!(removed(1), "Removed task 1");
    assert_eq!(removed(10), "Removed task 10");
}

#[test]
fn edited_message_quotes_the_new_text() {
    assert_eq!(edited(1, "buy oat milk"), "Edited task 1 to 'buy oat milk'");
    assert_eq!(edited(2, "call mom, please"), "Edited task 2 to 'call mom, please'");
    assert_eq!(edited(15, ""), "Edited task 15 to ''");
}

#[test]
fn error_messages() {
    assert_eq!(TodoError::InvalidIndex.message(), "Invalid task index");
    assert_eq!(
        TodoError::MalformedEditArgument.message(),
        "Invalid edit format. Use -e INDEX,TASK"
    );
}
