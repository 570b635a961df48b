use crate::decimal::{decimal_text, push_decimal};
use crate::store::TodoError;
use vstd::prelude::*;

verus! {

/// What is said when a task was added.
pub open spec fn added_text(task: Seq<char>) -> Seq<char> {
    "Added: "@ + task
}

/// What is said when the completion of task `index` was set to `value`.
pub open spec fn marked_text(index: nat, value: bool) -> Seq<char> {
    "Marked task "@ + decimal_text(index) + (if value {
        " as done"@
    } else {
        " as undone"@
    })
}

/// What is said when task `index` was removed.
pub open spec fn removed_text(index: nat) -> Seq<char> {
    "Removed task "@ + decimal_text(index)
}

/// What is said when the text of task `index` was replaced by `task`.
pub open spec fn edited_text(index: nat, task: Seq<char>) -> Seq<char> {
    "Edited task "@ + decimal_text(index) + " to '"@ + task + "'"@
}

/// What is said when an operation was refused.
pub open spec fn refused_text(error: TodoError) -> Seq<char> {
    match error {
        TodoError::InvalidIndex => "Invalid task index"@,
        TodoError::MalformedEditArgument => "Invalid edit format. Use -e INDEX,TASK"@,
    }
}

/// The confirmation of an added task.
pub fn added(task: &str) -> (text: String)
    ensures
        text@ == added_text(task@),
{
    let mut text = String::from_str("Added: ");
    text.append(task);
    text
}

/// The confirmation of a task marked as done or as undone.
pub fn marked(index: usize, value: bool) -> (text: String)
    ensures
        text@ == marked_text(index as nat, value),
{
    let mut text = String::from_str("Marked task ");
    push_decimal(&mut text, index);
    text.append(if value { " as done" } else { " as undone" });
    text
}

/// The confirmation of a removed task.
pub fn removed(index: usize) -> (text: String)
    ensures
        text@ == removed_text(index as nat),
{
    let mut text = String::from_str("Removed task ");
    push_decimal(&mut text, index);
    text
}

/// The confirmation of an edited task.
pub fn edited(index: usize, task: &str) -> (text: String)
    ensures
        text@ == edited_text(index as nat, task@),
{
    let mut text = String::from_str("Edited task ");
    push_decimal(&mut text, index);
    text.append(" to '");
    text.append(task);
    text.append("'");
    text
}

impl TodoError {
    /// The notice of a refused operation.
    pub fn message(&self) -> (text: String)
        ensures
            text@ == refused_text(*self),
    {
        match self {
            TodoError::InvalidIndex => String::from_str("Invalid task index"),
            TodoError::MalformedEditArgument => String::from_str(
                "Invalid edit format. Use -e INDEX,TASK",
            ),
        }
    }
}

} // verus!
