use crate::decimal::{index_of, parse_index};
use crate::edit::{edit_parts, split_edit};
use crate::message::{
    added, added_text, edited, edited_text, marked, marked_text, refused_text, removed,
    removed_text,
};
use crate::store::{
    listing, valid_index, with_added, with_done, with_edited, with_removed, TodoError, TodoList,
};
use crate::task::TodoView;
use vstd::prelude::*;

verus! {

/// One operation on the list, with its argument as the user gave it.
#[derive(Debug)]
pub enum Command {
    /// Add a task with this text.
    Add(String),
    /// Show all tasks.
    List,
    /// Mark the task of this index as done.
    Done(String),
    /// Mark the task of this index as not done.
    Undone(String),
    /// Remove the task of this index.
    Remove(String),
    /// Replace the text of a task: the index, a comma, the new text.
    Edit(String),
}

/// How an operation ended.
#[derive(Debug, Clone, Copy, PartialEq, Eq)]
pub enum Status {
    /// The list was changed and is to be saved.
    Saved,
    /// The list was shown. It is unchanged and is not saved.
    Listed,
    /// The index could not be read as a number, and nothing was done or
    /// said. The list is unchanged and is not saved.
    Skipped,
    /// The operation was refused. The list is unchanged and is not saved.
    Failed(TodoError),
}

/// What an operation leaves behind: how it ended and the lines to print.
#[derive(Debug)]
pub struct Outcome {
    pub status: Status,
    pub lines: Vec<String>,
}

/// What an operation does, as a mathematical value: the list after it, how
/// it ended and the lines to print.
pub ghost struct Effect {
    pub list: Seq<TodoView>,
    pub status: Status,
    pub lines: Seq<Seq<char>>,
}

/// A change of the list, confirmed by one line.
pub open spec fn saved(list: Seq<TodoView>, line: Seq<char>) -> Effect {
    Effect { list, status: Status::Saved, lines: seq![line] }
}

/// A refusal, with its notice. The list stays as it is.
pub open spec fn refused(list: Seq<TodoView>, error: TodoError) -> Effect {
    Effect { list, status: Status::Failed(error), lines: seq![refused_text(error)] }
}

/// An operation passed over in silence. The list stays as it is.
pub open spec fn skipped(list: Seq<TodoView>) -> Effect {
    Effect { list, status: Status::Skipped, lines: Seq::empty() }
}

/// What marking a task as done (`value` true) or as undone does, given the
/// index as the user wrote it.
pub open spec fn mark_effect(list: Seq<TodoView>, argument: Seq<char>, value: bool) -> Effect {
    match index_of(argument) {
        None => skipped(list),
        Some(index) => if valid_index(list, index as int) {
            saved(with_done(list, index as int, value), marked_text(index as nat, value))
        } else {
            refused(list, TodoError::InvalidIndex)
        },
    }
}

/// What removing a task does, given the index as the user wrote it.
pub open spec fn remove_effect(list: Seq<TodoView>, argument: Seq<char>) -> Effect {
    match index_of(argument) {
        None => skipped(list),
        Some(index) => if valid_index(list, index as int) {
            saved(with_removed(list, index as int), removed_text(index as nat))
        } else {
            refused(list, TodoError::InvalidIndex)
        },
    }
}

/// What an edit does, given its argument as the user wrote it. The form of
/// the argument is looked at first, then the index.
pub open spec fn edit_effect(list: Seq<TodoView>, argument: Seq<char>) -> Effect {
    match edit_parts(argument) {
        None => refused(list, TodoError::MalformedEditArgument),
        Some((index_part, task)) => match index_of(index_part) {
            None => skipped(list),
            Some(index) => if valid_index(list, index as int) {
                saved(with_edited(list, index as int, task), edited_text(index as nat, task))
            } else {
                refused(list, TodoError::InvalidIndex)
            },
        },
    }
}

/// What `command` does to `list`.
pub open spec fn effect_of(list: Seq<TodoView>, command: Command) -> Effect {
    match command {
        Command::Add(task) => saved(with_added(list, task@), added_text(task@)),
        Command::List => Effect { list, status: Status::Listed, lines: listing(list) },
        Command::Done(argument) => mark_effect(list, argument@, true),
        Command::Undone(argument) => mark_effect(list, argument@, false),
        Command::Remove(argument) => remove_effect(list, argument@),
        Command::Edit(argument) => edit_effect(list, argument@),
    }
}

/// Showing the list leaves it as it was and asks for no saving, so showing
/// it again gives the same lines.
pub proof fn lemma_list_is_repeatable(list: Seq<TodoView>)
    ensures
        effect_of(list, Command::List).list == list,
        effect_of(list, Command::List).status != Status::Saved,
        effect_of(effect_of(list, Command::List).list, Command::List) == effect_of(
            list,
            Command::List,
        ),
{
}

/// An operation that does not ask for the list to be saved has left it as
/// it was.
pub proof fn lemma_unsaved_is_unchanged(list: Seq<TodoView>, command: Command)
    requires
        effect_of(list, command).status != Status::Saved,
    ensures
        effect_of(list, command).list == list,
{
}

/// An operation given an index that names no task is refused: the list
/// stays as it is and is not saved. Zero and the index one past the end name
/// no task, and no index names a task of the empty list.
pub proof fn lemma_out_of_range_is_refused(
    list: Seq<TodoView>,
    argument: Seq<char>,
    index: usize,
    value: bool,
)
    requires
        index_of(argument) == Some(index),
        index == 0 || index == list.len() + 1 || list.len() == 0,
    ensures
        mark_effect(list, argument, value) == refused(list, TodoError::InvalidIndex),
        remove_effect(list, argument) == refused(list, TodoError::InvalidIndex),
        refused(list, TodoError::InvalidIndex).list == list,
        refused(list, TodoError::InvalidIndex).status != Status::Saved,
{
}

/// An edit whose argument names, before its first comma, an index that
/// names no task is refused: the list stays as it is and is not saved.
pub proof fn lemma_edit_out_of_range_is_refused(
    list: Seq<TodoView>,
    argument: Seq<char>,
    index: usize,
)
    requires
        edit_parts(argument) matches Some((index_part, _)) && index_of(index_part) == Some(index),
        index == 0 || index == list.len() + 1 || list.len() == 0,
    ensures
        edit_effect(list, argument) == refused(list, TodoError::InvalidIndex),
{
}

impl Command {
    /// The one operation of an invocation, given what each option of the
    /// command line holds. Where several options are given, the first of
    /// add, list, done, undone, remove and edit is taken and the others are
    /// dropped; where none is given, there is nothing to do.
    pub fn select(
        add: Option<String>,
        list: bool,
        done: Option<String>,
        undone: Option<String>,
        remove: Option<String>,
        edit: Option<String>,
    ) -> (command: Option<Command>)
        ensures
            command == (if let Some(task) = add {
                Some(Command::Add(task))
            } else if list {
                Some(Command::List)
            } else if let Some(index) = done {
                Some(Command::Done(index))
            } else if let Some(index) = undone {
                Some(Command::Undone(index))
            } else if let Some(index) = remove {
                Some(Command::Remove(index))
            } else if let Some(argument) = edit {
                Some(Command::Edit(argument))
            } else {
                None
            }),
    {
        if let Some(task) = add {
            Some(Command::Add(task))
        } else if list {
            Some(Command::List)
        } else if let Some(index) = done {
            Some(Command::Done(index))
        } else if let Some(index) = undone {
            Some(Command::Undone(index))
        } else if let Some(index) = remove {
            Some(Command::Remove(index))
        } else if let Some(argument) = edit {
            Some(Command::Edit(argument))
        } else {
            None
        }
    }
}

impl Outcome {
    /// Whether the list was changed and is to be saved before anything is
    /// printed.
    pub fn must_save(&self) -> (save: bool)
        ensures
            save == (self.status == Status::Saved),
    {
        match self.status {
            Status::Saved => true,
            _ => false,
        }
    }

    /// Whether this outcome is what `effect` describes.
    pub open spec fn shows(&self, effect: Effect) -> bool {
        &&& self.status == effect.status
        &&& self.lines.deep_view() == effect.lines
    }
}

/// The outcome of a change that `line` confirms.
fn confirm(line: String) -> (outcome: Outcome)
    ensures
        outcome.status == Status::Saved,
        outcome.lines.deep_view() == seq![line@],
{
    Outcome { status: Status::Saved, lines: vec![line] }
}

/// The outcome of a refusal, with its notice.
fn refuse(error: TodoError) -> (outcome: Outcome)
    ensures
        outcome.status == Status::Failed(error),
        outcome.lines.deep_view() == seq![refused_text(error)],
{
    Outcome { status: Status::Failed(error), lines: vec![error.message()] }
}

/// The outcome of an operation passed over in silence.
fn skip() -> (outcome: Outcome)
    ensures
        outcome.status == Status::Skipped,
        outcome.lines.deep_view() == Seq::<Seq<char>>::empty(),
{
    Outcome { status: Status::Skipped, lines: Vec::new() }
}

/// Marks the task that `argument` names as done or as undone.
pub fn mark(list: &mut TodoList, argument: &str, value: bool) -> (outcome: Outcome)
    ensures
        final(list)@ == mark_effect(old(list)@, argument@, value).list,
        outcome.shows(mark_effect(old(list)@, argument@, value)),
{
    match parse_index(argument) {
        None => skip(),
        Some(index) => match list.set_done(index, value) {
            Ok(()) => confirm(marked(index, value)),
            Err(error) => refuse(error),
        },
    }
}

/// Removes the task that `argument` names.
pub fn remove(list: &mut TodoList, argument: &str) -> (outcome: Outcome)
    ensures
        final(list)@ == remove_effect(old(list)@, argument@).list,
        outcome.shows(remove_effect(old(list)@, argument@)),
{
    match parse_index(argument) {
        None => skip(),
        Some(index) => match list.remove(index) {
            Ok(_) => confirm(removed(index)),
            Err(error) => refuse(error),
        },
    }
}

/// Replaces the text of a task, given the index and the new text in one
/// argument, parted by a comma.
pub fn edit(list: &mut TodoList, argument: &str) -> (outcome: Outcome)
    ensures
        final(list)@ == edit_effect(old(list)@, argument@).list,
        outcome.shows(edit_effect(old(list)@, argument@)),
{
    match split_edit(argument) {
        Err(error) => refuse(error),
        Ok((index_part, task)) => match parse_index(index_part.as_str()) {
            None => skip(),
            Some(index) => {
                let line = edited(index, task.as_str());
                match list.edit(index, task) {
                    Ok(()) => confirm(line),
                    Err(error) => refuse(error),
                }
            },
        },
    }
}

/// Carries out `command` on `list`. The list is changed only where the
/// outcome says that it is to be saved.
pub fn run(list: &mut TodoList, command: Command) -> (outcome: Outcome)
    ensures
        final(list)@ == effect_of(old(list)@, command).list,
        outcome.shows(effect_of(old(list)@, command)),
{
    match command {
        Command::Add(task) => {
            let line = added(task.as_str());
            list.add(task);
            confirm(line)
        },
        Command::List => Outcome { status: Status::Listed, lines: list.lines() },
        Command::Done(argument) => mark(list, argument.as_str(), true),
        Command::Undone(argument) => mark(list, argument.as_str(), false),
        Command::Remove(argument) => remove(list, argument.as_str()),
        Command::Edit(argument) => edit(list, argument.as_str()),
    }
}

} // verus!
