use crate::decimal::{decimal_text, push_decimal};
use crate::task::{Todo, TodoView};
use vstd::prelude::*;

verus! {

/// Why an operation on the list was refused.
#[derive(Debug, Clone, Copy, PartialEq, Eq)]
pub enum TodoError {
    /// The index is below one or above the length of the list.
    InvalidIndex,
    /// The argument of an edit has no comma to part the index from the text.
    MalformedEditArgument,
}

/// What was found where the list is kept.
#[derive(Debug)]
pub enum Stored {
    /// Nothing could be read there: as a rule, nothing is kept there yet.
    Absent,
    /// Something is kept there that is not a list of tasks.
    Malformed,
    /// The tasks kept there, in their order.
    Tasks(Vec<Todo>),
}

/// The tasks of a run of records, in the same order.
pub open spec fn views(tasks: Seq<Todo>) -> Seq<TodoView> {
    tasks.map_values(|todo: Todo| todo@)
}

/// The list that a program starts from. Where nothing could be read, and
/// where what is kept is not a list of tasks, it starts from the empty list:
/// neither is an error.
pub open spec fn loaded(stored: Stored) -> Seq<TodoView> {
    match stored {
        Stored::Tasks(tasks) => views(tasks@),
        Stored::Absent | Stored::Malformed => Seq::empty(),
    }
}

/// Whether `index` names a task of `list`. Tasks are counted from one.
pub open spec fn valid_index(list: Seq<TodoView>, index: int) -> bool {
    1 <= index <= list.len()
}

/// The task that `index` names in `list`.
pub open spec fn task_at(list: Seq<TodoView>, index: int) -> TodoView
    recommends
        valid_index(list, index),
{
    list[index - 1]
}

/// `list` with a new task at its end, not completed.
pub open spec fn with_added(list: Seq<TodoView>, task: Seq<char>) -> Seq<TodoView> {
    list.push(TodoView { task, done: false })
}

/// `list` with the completion of task `index` set to `value`.
pub open spec fn with_done(list: Seq<TodoView>, index: int, value: bool) -> Seq<TodoView>
    recommends
        valid_index(list, index),
{
    list.update(index - 1, TodoView { task: list[index - 1].task, done: value })
}

/// `list` with the text of task `index` replaced by `task`.
pub open spec fn with_edited(list: Seq<TodoView>, index: int, task: Seq<char>) -> Seq<TodoView>
    recommends
        valid_index(list, index),
{
    list.update(index - 1, TodoView { task, done: list[index - 1].done })
}

/// `list` without task `index`.
pub open spec fn with_removed(list: Seq<TodoView>, index: int) -> Seq<TodoView>
    recommends
        valid_index(list, index),
{
    list.remove(index - 1)
}

/// The line that shows a task: its index, its text, and a mark that is `x`
/// for a completed task and a space for any other.
pub open spec fn line_of(index: nat, todo: TodoView) -> Seq<char> {
    decimal_text(index) + ": "@ + todo.task + " ["@ + (if todo.done {
        "x"@
    } else {
        " "@
    }) + "]"@
}

/// The lines that show `list`: one for each task, in order, counted from one.
pub open spec fn listing(list: Seq<TodoView>) -> Seq<Seq<char>> {
    Seq::new(list.len(), |i: int| line_of((i + 1) as nat, list[i]))
}

/// Loading stored tasks gives those tasks in their order. A list that is
/// loaded and handed on unchanged is therefore handed on as it was stored.
pub proof fn lemma_loaded_as_stored(tasks: Vec<Todo>)
    ensures
        loaded(Stored::Tasks(tasks)) == views(tasks@),
        loaded(Stored::Tasks(tasks)).len() == tasks@.len(),
        forall|i: int| 0 <= i < tasks@.len() ==> loaded(Stored::Tasks(tasks))[i] == tasks@[i]@,
{
}

/// Setting the completion of a task changes that flag and nothing else: the
/// list keeps its length, the task keeps its text, and every other task
/// stays as it was.
pub proof fn lemma_mark_sets_one_flag(list: Seq<TodoView>, index: int, value: bool)
    requires
        valid_index(list, index),
    ensures
        with_done(list, index, value).len() == list.len(),
        task_at(with_done(list, index, value), index).done == value,
        task_at(with_done(list, index, value), index).task == task_at(list, index).task,
        forall|other: int|
            valid_index(list, other) && other != index ==> task_at(
                with_done(list, index, value),
                other,
            ) == #[trigger] task_at(list, other),
{
}

/// Setting the completion of a task twice is as setting it once, to the
/// later value.
pub proof fn lemma_mark_twice(list: Seq<TodoView>, index: int, first: bool, second: bool)
    requires
        valid_index(list, index),
    ensures
        valid_index(with_done(list, index, first), index),
        with_done(with_done(list, index, first), index, second) == with_done(list, index, second),
{
}

/// Marking a task as done and then as undone gives back the list as it was,
/// where the task was not done before.
pub proof fn lemma_done_then_undone(list: Seq<TodoView>, index: int)
    requires
        valid_index(list, index),
        !task_at(list, index).done,
    ensures
        with_done(with_done(list, index, true), index, false) == list,
{
}

/// Removing a task makes the list one shorter. The tasks before it keep
/// their indices, and each task after it gets the index one below its own.
pub proof fn lemma_remove_shifts(list: Seq<TodoView>, index: int)
    requires
        valid_index(list, index),
    ensures
        with_removed(list, index).len() == list.len() - 1,
        forall|before: int|
            1 <= before < index ==> task_at(with_removed(list, index), before)
                == #[trigger] task_at(list, before),
        forall|after: int|
            index < after <= list.len() ==> task_at(with_removed(list, index), after - 1)
                == #[trigger] task_at(list, after),
{
}

/// Zero and the index one past the end name no task, and no index names a
/// task of the empty list.
pub proof fn lemma_indices_out_of_range(list: Seq<TodoView>, index: int)
    ensures
        !valid_index(list, 0),
        !valid_index(list, list.len() as int + 1),
        list.len() == 0 ==> !valid_index(list, index),
{
}

/// An ordered list of tasks. A task is named by its index, which is its
/// position counted from one: removing a task renames all that follow it.
#[derive(Debug)]
pub struct TodoList {
    tasks: Vec<Todo>,
}

impl View for TodoList {
    type V = Seq<TodoView>;

    closed spec fn view(&self) -> Seq<TodoView> {
        views(self.tasks@)
    }
}

impl TodoList {
    /// The list to start from, given what was found in storage.
    pub fn load(stored: Stored) -> (list: TodoList)
        ensures
            list@ == loaded(stored),
    {
        match stored {
            Stored::Tasks(tasks) => TodoList { tasks },
            Stored::Absent | Stored::Malformed => TodoList { tasks: Vec::new() },
        }
    }

    /// Appends a new task, not completed.
    pub fn add(&mut self, task: String)
        ensures
            final(self)@ == with_added(old(self)@, task@),
    {
        self.tasks.push(Todo::new(task));
    }

    /// Sets the completion of task `index` to `value`. Its text and all other
    /// tasks stay as they are. An index that names no task is refused and
    /// leaves the list as it is.
    pub fn set_done(&mut self, index: usize, value: bool) -> (result: Result<(), TodoError>)
        ensures
            valid_index(old(self)@, index as int) ==> result is Ok && final(self)@ == with_done(
                old(self)@,
                index as int,
                value,
            ),
            !valid_index(old(self)@, index as int) ==> result == Err::<(), TodoError>(
                TodoError::InvalidIndex,
            ) && final(self)@ == old(self)@,
    {
        if index > 0 && index <= self.tasks.len() {
            self.tasks[index - 1].done = value;
            Ok(())
        } else {
            Err(TodoError::InvalidIndex)
        }
    }

    /// Replaces the text of task `index`. Its completion and all other tasks
    /// stay as they are. An index that names no task is refused and leaves
    /// the list as it is.
    pub fn edit(&mut self, index: usize, task: String) -> (result: Result<(), TodoError>)
        ensures
            valid_index(old(self)@, index as int) ==> result is Ok && final(self)@ == with_edited(
                old(self)@,
                index as int,
                task@,
            ),
            !valid_index(old(self)@, index as int) ==> result == Err::<(), TodoError>(
                TodoError::InvalidIndex,
            ) && final(self)@ == old(self)@,
    {
        if index > 0 && index <= self.tasks.len() {
            self.tasks[index - 1].task = task;
            Ok(())
        } else {
            Err(TodoError::InvalidIndex)
        }
    }

    /// Takes task `index` out of the list and hands it back. The list is one
    /// shorter: the tasks before `index` keep their indices, and each task
    /// after it has an index one lower than before. An index that names no
    /// task is refused and leaves the list as it is.
    pub fn remove(&mut self, index: usize) -> (result: Result<Todo, TodoError>)
        ensures
            valid_index(old(self)@, index as int) ==> {
                &&& result matches Ok(removed)
                &&& removed@ == task_at(old(self)@, index as int)
                &&& final(self)@ == with_removed(old(self)@, index as int)
                &&& final(self)@.len() == old(self)@.len() - 1
                &&& forall|i: int|
                    1 <= i < index ==> task_at(final(self)@, i) == #[trigger] task_at(
                        old(self)@,
                        i,
                    )
                &&& forall|i: int|
                    index < i <= old(self)@.len() ==> task_at(final(self)@, i - 1)
                        == #[trigger] task_at(old(self)@, i)
            },
            !valid_index(old(self)@, index as int) ==> {
                &&& result matches Err(error)
                &&& error == TodoError::InvalidIndex
                &&& final(self)@ == old(self)@
            },
    {
        if index > 0 && index <= self.tasks.len() {
            Ok(self.tasks.remove(index - 1))
        } else {
            Err(TodoError::InvalidIndex)
        }
    }

    /// The lines that show the list, one for each task. The list is left as
    /// it is.
    pub fn lines(&self) -> (lines: Vec<String>)
        ensures
            lines.deep_view() == listing(self@),
    {
        let mut lines: Vec<String> = Vec::new();
        let count = self.tasks.len();
        let mut at: usize = 0;
        while at < count
            invariant
                count == self.tasks.len(),
                at <= count,
                lines.len() == at,
                forall|i: int| 0 <= i < at ==> lines[i]@ == line_of((i + 1) as nat, self@[i]),
            decreases count - at,
        {
            let todo = &self.tasks[at];
            let mut line = String::new();
            push_decimal(&mut line, at + 1);
            line.append(": ");
            line.append(todo.task.as_str());
            line.append(" [");
            line.append(if todo.done { "x" } else { " " });
            line.append("]");
            lines.push(line);
            at = at + 1;
        }
        lines
    }

    /// The number of tasks.
    pub fn len(&self) -> (count: usize)
        ensures
            count == self@.len(),
    {
        self.tasks.len()
    }

    /// The tasks in their order, as they are to be kept.
    pub fn tasks(&self) -> (tasks: &Vec<Todo>)
        ensures
            views(tasks@) == self@,
    {
        &self.tasks
    }
}

} // verus!
